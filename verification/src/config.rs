//! The settings of the process, resolved once from the values of its
//! environment.

use vstd::prelude::*;
use vstd::string::*;
use crate::address::{
    is_ipv4, is_ipv4_literal, is_socket_addr_text, law_host_and_port_spell_an_address,
    socket_addr_text, MAX_PORT,
};
use crate::decimal::{decimal_string, parse_u32, u32_value};

verus! {

/// The port that is listened on where the environment names none.
pub const DEFAULT_PORT: u32 = 8080;

/// The values that the settings are resolved from, each as the environment
/// gave it, or `None` where it gave none.
#[derive(Clone, Debug, PartialEq, Eq)]
pub struct Environment {
    /// `HOST_IP`: the host to bind to.
    pub host_ip: Option<String>,
    /// `PORT`: the port to bind to.
    pub port: Option<String>,
    /// `FRONTEND_DIR`: the root of the static assets.
    pub frontend_dir: Option<String>,
    /// `FILE_STORE_DIR`: the root of the file storage.
    pub file_store_dir: Option<String>,
    /// `RUST_LOG`: the log filter.
    pub rust_log: Option<String>,
    /// `MODEL_PATH`: where the primary model lies.
    pub model_path: Option<String>,
    /// `VAD_MODEL_PATH`: where the voice-activity-detection model lies.
    pub vad_model_path: Option<String>,
    /// The working directory of the process, where it can be told.
    pub current_dir: Option<String>,
}

/// An `Environment` as a mathematical value.
pub struct EnvironmentView {
    pub host_ip: Option<Seq<char>>,
    pub port: Option<Seq<char>>,
    pub frontend_dir: Option<Seq<char>>,
    pub file_store_dir: Option<Seq<char>>,
    pub rust_log: Option<Seq<char>>,
    pub model_path: Option<Seq<char>>,
    pub vad_model_path: Option<Seq<char>>,
    pub current_dir: Option<Seq<char>>,
}

/// The view of a value that may be missing.
pub open spec fn value_view(value: Option<String>) -> Option<Seq<char>> {
    match value {
        Some(text) => Some(text@),
        None => None,
    }
}

impl View for Environment {
    type V = EnvironmentView;

    open spec fn view(&self) -> EnvironmentView {
        EnvironmentView {
            host_ip: value_view(self.host_ip),
            port: value_view(self.port),
            frontend_dir: value_view(self.frontend_dir),
            file_store_dir: value_view(self.file_store_dir),
            rust_log: value_view(self.rust_log),
            model_path: value_view(self.model_path),
            vad_model_path: value_view(self.vad_model_path),
            current_dir: value_view(self.current_dir),
        }
    }
}

/// Why the settings could not be resolved.
#[derive(Clone, Copy, Debug, PartialEq, Eq, Structural)]
pub enum ConfigError {
    /// `HOST_IP` is missing.
    HostIpNotSet,
    /// `HOST_IP` is no IPv4 literal in dotted-quad notation.
    HostIpMalformed,
    /// `PORT` is there and writes no `u32`.
    PortNotParsable,
    /// `PORT` writes a number above the largest port.
    PortOutOfRange,
    /// `FRONTEND_DIR` is missing.
    FrontendDirNotSet,
    /// `FRONTEND_DIR` is relative and the working directory cannot be told.
    CurrentDirUnavailable,
    /// `FRONTEND_DIR` is relative, and adjoined to the working directory it
    /// is relative still.
    FrontendDirNotAbsolute,
    /// `FILE_STORE_DIR` is missing.
    FileStoreDirNotSet,
    /// `MODEL_PATH` is missing.
    ModelPathNotSet,
    /// `VAD_MODEL_PATH` is missing.
    VadModelPathNotSet,
}

/// The settings of the process.
#[derive(Clone, Debug, PartialEq, Eq)]
pub struct Config {
    pub host_ip: String,
    pub port: u32,
    pub frontend_dir_path: String,
    pub file_store_dir_path: String,
    pub rust_log: String,
    pub model_path: String,
    pub vad_model_path: String,
}

/// A `Config` as a mathematical value.
pub struct ConfigView {
    pub host_ip: Seq<char>,
    pub port: u32,
    pub frontend_dir_path: Seq<char>,
    pub file_store_dir_path: Seq<char>,
    pub rust_log: Seq<char>,
    pub model_path: Seq<char>,
    pub vad_model_path: Seq<char>,
}

impl View for Config {
    type V = ConfigView;

    open spec fn view(&self) -> ConfigView {
        ConfigView {
            host_ip: self.host_ip@,
            port: self.port,
            frontend_dir_path: self.frontend_dir_path@,
            file_store_dir_path: self.file_store_dir_path@,
            rust_log: self.rust_log@,
            model_path: self.model_path@,
            vad_model_path: self.vad_model_path@,
        }
    }
}

/// Whether the path that `path` spells is absolute, by the rules of the
/// platform that the crate is built for.
pub uninterp spec fn is_absolute_path(path: Seq<char>) -> bool;

/// The path that `base` spells, with the path that `path` spells adjoined,
/// by the rules of the platform that the crate is built for.
pub uninterp spec fn joined_path(base: Seq<char>, path: Seq<char>) -> Seq<char>;

/// Calls `std::path::Path::is_absolute` on the path that `path` spells. The
/// contract claims only that the answer depends on the spelling alone: it
/// gives the answer the name `is_absolute_path`.
#[verifier::external_body]
fn path_is_absolute(path: &str) -> (absolute: bool)
    ensures
        absolute == is_absolute_path(path@),
{
    std::path::Path::new(path).is_absolute()
}

/// Calls `std::path::Path::join` on the paths that `base` and `path` spell,
/// and spells the result out. The contract claims only that the result
/// depends on the two spellings alone: it gives the result the name
/// `joined_path`.
#[verifier::external_body]
fn join_path(base: &str, path: &str) -> (joined: String)
    ensures
        joined@ == joined_path(base@, path@),
{
    std::path::Path::new(base).join(path).to_string_lossy().into_owned()
}

/// The log filter that is used where the environment names none.
pub open spec fn default_log_filter() -> Seq<char> {
    "todo_axum=debug,tower_http=debug"@
}

/// The port that a `PORT` value stands for: the default where there is no
/// value, else the number that the value writes. Fails where the value
/// writes no `u32`, and where it writes one above the largest port.
pub open spec fn port_of(value: Option<Seq<char>>) -> Result<u32, ConfigError> {
    match value {
        Some(text) => match u32_value(text) {
            Some(port) => if port <= MAX_PORT {
                Ok(port)
            } else {
                Err(ConfigError::PortOutOfRange)
            },
            None => Err(ConfigError::PortNotParsable),
        },
        None => Ok(DEFAULT_PORT),
    }
}

/// The root of the static assets, made absolute: `dir` itself where it is
/// absolute, else `dir` adjoined to the working directory. Fails where the
/// working directory is needed and not known, and where the adjoined path is
/// not absolute either.
pub open spec fn anchored(dir: Seq<char>, absolute: bool, current_dir: Option<Seq<char>>) -> Result<
    Seq<char>,
    ConfigError,
> {
    if absolute {
        Ok(dir)
    } else {
        match current_dir {
            Some(base) => if is_absolute_path(joined_path(base, dir)) {
                Ok(joined_path(base, dir))
            } else {
                Err(ConfigError::FrontendDirNotAbsolute)
            },
            None => Err(ConfigError::CurrentDirUnavailable),
        }
    }
}

/// The settings that an environment resolves to, or the first thing that is
/// wrong with it, in the order host, port, asset root, storage root, primary
/// model, voice-activity-detection model.
pub open spec fn resolved(env: EnvironmentView) -> Result<ConfigView, ConfigError> {
    let root = anchored(
        env.frontend_dir->0,
        is_absolute_path(env.frontend_dir->0),
        env.current_dir,
    );
    if env.host_ip is None {
        Err(ConfigError::HostIpNotSet)
    } else if !is_ipv4_literal(env.host_ip->0) {
        Err(ConfigError::HostIpMalformed)
    } else if port_of(env.port) is Err {
        Err(port_of(env.port)->Err_0)
    } else if env.frontend_dir is None {
        Err(ConfigError::FrontendDirNotSet)
    } else if root is Err {
        Err(root->Err_0)
    } else if env.file_store_dir is None {
        Err(ConfigError::FileStoreDirNotSet)
    } else if env.model_path is None {
        Err(ConfigError::ModelPathNotSet)
    } else if env.vad_model_path is None {
        Err(ConfigError::VadModelPathNotSet)
    } else {
        Ok(
            ConfigView {
                host_ip: env.host_ip->0,
                port: port_of(env.port)->Ok_0,
                frontend_dir_path: root->Ok_0,
                file_store_dir_path: env.file_store_dir->0,
                rust_log: match env.rust_log {
                    Some(filter) => filter,
                    None => default_log_filter(),
                },
                model_path: env.model_path->0,
                vad_model_path: env.vad_model_path->0,
            },
        )
    }
}

/// Whether an environment holds every value that is required.
pub open spec fn has_required_values(env: EnvironmentView) -> bool {
    &&& env.host_ip is Some
    &&& env.frontend_dir is Some
    &&& env.file_store_dir is Some
    &&& env.model_path is Some
    &&& env.vad_model_path is Some
}

/// An environment that lacks a required value resolves to no settings,
/// whatever else it holds: there is then no `Config` to take a bind address
/// from.
pub proof fn law_missing_required_value_fails(env: EnvironmentView)
    requires
        !has_required_values(env),
    ensures
        resolved(env) is Err,
{
}

/// An environment whose host or port is malformed resolves to no settings:
/// a host that is no IPv4 literal, a port that writes no number or one
/// above the largest port.
pub proof fn law_malformed_address_fails(env: EnvironmentView)
    requires
        ({
            ||| env.host_ip is Some && !is_ipv4_literal(env.host_ip->0)
            ||| env.port is Some && u32_value(env.port->0) is None
            ||| env.port is Some && u32_value(env.port->0) is Some && u32_value(env.port->0)->0
                > MAX_PORT
        }),
    ensures
        resolved(env) is Err,
{
}

/// An environment resolves to settings exactly when it holds every required
/// value, its host is an IPv4 literal, its port, if it names one, writes a
/// number that is a port, and its asset root is absolute or becomes so when
/// adjoined to the working directory.
pub proof fn law_resolution_succeeds_when_complete(env: EnvironmentView)
    ensures
        resolved(env) is Ok <==> {
            &&& has_required_values(env)
            &&& is_ipv4_literal(env.host_ip->0)
            &&& port_of(env.port) is Ok
            &&& anchored(
                env.frontend_dir->0,
                is_absolute_path(env.frontend_dir->0),
                env.current_dir,
            ) is Ok
        },
{
}

/// Settings that were resolved are valid: the host is an IPv4 literal, the
/// port is one that can be bound, so that host and port spell a socket
/// address, and the asset root is absolute.
pub proof fn law_resolved_settings_are_valid(env: EnvironmentView)
    requires
        resolved(env) is Ok,
    ensures
        is_ipv4_literal(resolved(env)->Ok_0.host_ip),
        resolved(env)->Ok_0.port <= MAX_PORT,
        is_socket_addr_text(
            socket_addr_text(resolved(env)->Ok_0.host_ip, resolved(env)->Ok_0.port),
        ),
        is_absolute_path(resolved(env)->Ok_0.frontend_dir_path),
{
    law_host_and_port_spell_an_address(resolved(env)->Ok_0.host_ip, resolved(env)->Ok_0.port);
}

impl ConfigError {
    /// What is wrong, in words.
    pub fn message(&self) -> (text: &'static str)
        ensures
            text@ == match *self {
                ConfigError::HostIpNotSet => "HOST_IP not set"@,
                ConfigError::HostIpMalformed => "HOST_IP not an IPv4 address"@,
                ConfigError::PortNotParsable => "PORT not parsable"@,
                ConfigError::PortOutOfRange => "PORT out of range"@,
                ConfigError::FrontendDirNotSet => "FRONTEND_DIR not set"@,
                ConfigError::CurrentDirUnavailable => "current directory not available"@,
                ConfigError::FrontendDirNotAbsolute => "FRONTEND_DIR not absolute"@,
                ConfigError::FileStoreDirNotSet => "FILE_STORE_DIR not set"@,
                ConfigError::ModelPathNotSet => "MODEL_PATH not set"@,
                ConfigError::VadModelPathNotSet => "VAD_MODEL_PATH not set"@,
            },
    {
        match self {
            ConfigError::HostIpNotSet => "HOST_IP not set",
            ConfigError::HostIpMalformed => "HOST_IP not an IPv4 address",
            ConfigError::PortNotParsable => "PORT not parsable",
            ConfigError::PortOutOfRange => "PORT out of range",
            ConfigError::FrontendDirNotSet => "FRONTEND_DIR not set",
            ConfigError::CurrentDirUnavailable => "current directory not available",
            ConfigError::FrontendDirNotAbsolute => "FRONTEND_DIR not absolute",
            ConfigError::FileStoreDirNotSet => "FILE_STORE_DIR not set",
            ConfigError::ModelPathNotSet => "MODEL_PATH not set",
            ConfigError::VadModelPathNotSet => "VAD_MODEL_PATH not set",
        }
    }
}

/// Makes the root of the static assets absolute, given whether it is so
/// already: `dir` itself where it is, else `dir` adjoined to the working
/// directory. Fails where the directory is relative and the working
/// directory is not known, and where the adjoined path is relative still.
pub fn anchor(dir: String, absolute: bool, current_dir: Option<String>) -> (path: Result<
    String,
    ConfigError,
>)
    ensures
        match path {
            Ok(text) => anchored(dir@, absolute, value_view(current_dir)) == Ok::<
                Seq<char>,
                ConfigError,
            >(text@),
            Err(error) => anchored(dir@, absolute, value_view(current_dir)) == Err::<
                Seq<char>,
                ConfigError,
            >(error),
        },
{
    if absolute {
        Ok(dir)
    } else {
        match current_dir {
            Some(base) => {
                let joined = join_path(base.as_str(), dir.as_str());
                if path_is_absolute(joined.as_str()) {
                    Ok(joined)
                } else {
                    Err(ConfigError::FrontendDirNotAbsolute)
                }
            },
            None => Err(ConfigError::CurrentDirUnavailable),
        }
    }
}

impl Config {
    /// Resolves the settings from the values of the environment. Fails with
    /// the first thing that is wrong: a required value that is missing, a
    /// host that is no IPv4 literal, a port that writes no number or one
    /// that cannot be bound, or an asset root that cannot be made absolute.
    pub fn new(env: Environment) -> (config: Result<Config, ConfigError>)
        ensures
            match config {
                Ok(settings) => resolved(env@) == Ok::<ConfigView, ConfigError>(settings@),
                Err(error) => resolved(env@) == Err::<ConfigView, ConfigError>(error),
            },
    {
        let host_ip = match env.host_ip {
            Some(host_ip) => host_ip,
            None => {
                return Err(ConfigError::HostIpNotSet);
            },
        };
        if !is_ipv4(host_ip.as_str()) {
            return Err(ConfigError::HostIpMalformed);
        }
        let port = match env.port {
            Some(text) => match parse_u32(text.as_str()) {
                Some(port) => {
                    if port > MAX_PORT {
                        return Err(ConfigError::PortOutOfRange);
                    }
                    port
                },
                None => {
                    return Err(ConfigError::PortNotParsable);
                },
            },
            None => DEFAULT_PORT,
        };
        let frontend_dir = match env.frontend_dir {
            Some(frontend_dir) => frontend_dir,
            None => {
                return Err(ConfigError::FrontendDirNotSet);
            },
        };
        let absolute = path_is_absolute(frontend_dir.as_str());
        let frontend_dir_path = match anchor(frontend_dir, absolute, env.current_dir) {
            Ok(path) => path,
            Err(error) => {
                return Err(error);
            },
        };
        let file_store_dir_path = match env.file_store_dir {
            Some(file_store_dir) => file_store_dir,
            None => {
                return Err(ConfigError::FileStoreDirNotSet);
            },
        };
        let rust_log = match env.rust_log {
            Some(filter) => filter,
            None => String::from_str("todo_axum=debug,tower_http=debug"),
        };
        let model_path = match env.model_path {
            Some(model_path) => model_path,
            None => {
                return Err(ConfigError::ModelPathNotSet);
            },
        };
        let vad_model_path = match env.vad_model_path {
            Some(vad_model_path) => vad_model_path,
            None => {
                return Err(ConfigError::VadModelPathNotSet);
            },
        };
        Ok(
            Config {
                host_ip,
                port,
                frontend_dir_path,
                file_store_dir_path,
                rust_log,
                model_path,
                vad_model_path,
            },
        )
    }

    /// The text of the socket address to bind to: host, colon, port. For
    /// settings that were resolved it spells a socket address.
    pub fn get_host_socket_addr(&self) -> (text: String)
        ensures
            text@ == socket_addr_text(self@.host_ip, self@.port),
    {
        let mut text = self.host_ip.clone();
        text.append(":");
        text.append(decimal_string(self.port as u64).as_str());
        text
    }

    /// The root of the static assets: absolute, in settings that were
    /// resolved.
    pub fn get_frontend_dir_path(&self) -> (path: &str)
        ensures
            path@ == self@.frontend_dir_path,
    {
        self.frontend_dir_path.as_str()
    }

    /// The root of the file storage.
    pub fn get_file_store_dir_path(&self) -> (path: &str)
        ensures
            path@ == self@.file_store_dir_path,
    {
        self.file_store_dir_path.as_str()
    }

    /// The log filter.
    pub fn get_rust_log(&self) -> (filter: &str)
        ensures
            filter@ == self@.rust_log,
    {
        self.rust_log.as_str()
    }

    /// Where the primary model lies.
    pub fn get_model_path(&self) -> (path: &str)
        ensures
            path@ == self@.model_path,
    {
        self.model_path.as_str()
    }

    /// Where the voice-activity-detection model lies.
    pub fn get_vad_model_path(&self) -> (path: &str)
        ensures
            path@ == self@.vad_model_path,
    {
        self.vad_model_path.as_str()
    }
}

} // verus!
