//! The service settings: where requests go, how they are signed, and who
//! tasks can be assigned to.

use vstd::prelude::*;
use crate::task::Staff;
use crate::text::push_str;

verus! {

/// The folder, inside the user's configuration directory, that holds the
/// settings file.
pub const CONFIG_DIR_NAME: &'static str = "acetics-cli";

/// The settings file's name.
pub const CONFIG_FILE_NAME: &'static str = "config.toml";

/// The prefix of environment variables that override the settings file.
pub const ENV_PREFIX: &'static str = "ACETICS";

/// The path, below the endpoint, where tasks are created.
pub const CREATE_TASK_PATH: &'static str = "tasks/create";

/// The settings as read from the file and the environment.
#[derive(Debug)]
pub struct AceticsConfig {
    pub endpoint: String,
    pub token: String,
    pub default_staff_index: usize,
    pub staffs: Vec<Staff>,
}

/// Why settings cannot be used.
#[derive(Clone, Copy, Debug, PartialEq, Eq, Structural)]
pub enum ConfigError {
    /// The default staff index names no one in the roster.
    DefaultStaffOutOfRange { index: usize, len: usize },
}

/// The client's settings, with a default staff member that is in the roster.
#[derive(Debug)]
pub struct Acetics {
    pub config: AceticsConfig,
}

impl Acetics {
    pub open spec fn wf(&self) -> bool {
        self.config.default_staff_index < self.config.staffs@.len()
    }

    /// The default staff member's id.
    pub open spec fn default_staff_id(&self) -> i32 {
        self.config.staffs@[self.config.default_staff_index as int].id
    }

    /// Accepts settings whose default staff index lies in the roster.
    pub fn new(config: AceticsConfig) -> (r: Result<Acetics, ConfigError>)
        ensures
            config.default_staff_index < config.staffs@.len() <==> r is Ok,
            r matches Ok(a) ==> a.config == config && a.wf(),
            r matches Err(e) ==> e == (ConfigError::DefaultStaffOutOfRange {
                index: config.default_staff_index,
                len: config.staffs@.len() as usize,
            }),
    {
        if config.default_staff_index < config.staffs.len() {
            Ok(Acetics { config })
        } else {
            let index = config.default_staff_index;
            let len = config.staffs.len();
            Err(ConfigError::DefaultStaffOutOfRange { index, len })
        }
    }

    pub fn staffs(&self) -> (r: &[Staff])
        ensures
            r@ == self.config.staffs@,
    {
        self.config.staffs.as_slice()
    }

    pub fn default_staff_index(&self) -> (r: usize)
        ensures
            r == self.config.default_staff_index,
    {
        self.config.default_staff_index
    }

    /// Whether `staff` is the default staff member, by id: the roster can be
    /// reordered, so a position says nothing of who someone is.
    pub fn is_default_staff(&self, staff: &Staff) -> (r: bool)
        requires
            self.wf(),
        ensures
            r == (staff.id == self.default_staff_id()),
    {
        staff.id == self.config.staffs[self.config.default_staff_index].id
    }

    /// The address of `path` below the endpoint, joined by one slash.
    pub fn request_url(&self, path: &str) -> (r: String)
        ensures
            r@ == self.config.endpoint@ + "/"@ + path@,
    {
        let mut s = String::new();
        push_str(&mut s, self.config.endpoint.as_str());
        push_str(&mut s, "/");
        push_str(&mut s, path);
        s
    }

    /// The value of the `Authorization` header: the token as a bearer
    /// credential.
    pub fn authorization(&self) -> (r: String)
        ensures
            r@ == "Bearer "@ + self.config.token@,
    {
        let mut s = String::new();
        push_str(&mut s, "Bearer ");
        push_str(&mut s, self.config.token.as_str());
        s
    }
}

/// The message shown after a first run wrote an example settings file at
/// `path`, which the operator now has to fill in.
pub fn bootstrap_message(path: &str) -> (r: String)
    ensures
        r@ == "Please edit the config file at "@ + path@ + " and restart the application"@,
{
    let mut s = String::new();
    push_str(&mut s, "Please edit the config file at ");
    push_str(&mut s, path);
    push_str(&mut s, " and restart the application");
    s
}

} // verus!
