//! Application Launch Authorizer: the read-only application registry, the
//! admin-only restriction, and the exit-code protocol of the per-application
//! entry-point executable.

use vstd::prelude::*;
use vstd::string::StringExecFns;
use crate::names::AppName;
use crate::response::Error;
use crate::text::{str_eq, trimmed, trim};

verus! {

/// How an application is reached: a fixed URL, or a per-request dynamically
/// computed one.
#[derive(Debug)]
pub enum EntryPoint {
    Static { url: String },
    Dynamic,
}

/// One registered application.
#[derive(Debug)]
pub struct App {
    pub name: AppName,
    pub admin_only: bool,
    pub entry_point: EntryPoint,
}

/// The first registered application carrying `name`, if any.
pub open spec fn spec_lookup(apps: Seq<App>, name: Seq<char>) -> Option<App>
    decreases apps.len(),
{
    if apps.len() == 0 {
        None
    } else if apps[0].name@ == name {
        Some(apps[0])
    } else {
        spec_lookup(apps.drop_first(), name)
    }
}

proof fn lemma_lookup_at(apps: Seq<App>, name: Seq<char>, i: int)
    requires
        0 <= i < apps.len(),
        apps[i].name@ == name,
        forall|j: int| 0 <= j < i ==> apps[j].name@ != name,
    ensures
        spec_lookup(apps, name) == Some(apps[i]),
    decreases i,
{
    if i > 0 {
        lemma_lookup_at(apps.drop_first(), name, i - 1);
    }
}

proof fn lemma_lookup_none(apps: Seq<App>, name: Seq<char>)
    requires
        forall|j: int| 0 <= j < apps.len() ==> apps[j].name@ != name,
    ensures
        spec_lookup(apps, name) is None,
    decreases apps.len(),
{
    if apps.len() > 0 {
        lemma_lookup_none(apps.drop_first(), name);
    }
}

/// The applications visible to a caller: every one for an administrator,
/// the unrestricted ones for anybody else, in registry order.
pub open spec fn spec_visible(apps: Seq<App>, is_admin: bool) -> Seq<App>
    decreases apps.len(),
{
    if apps.len() == 0 {
        Seq::empty()
    } else {
        let rest = spec_visible(apps.drop_last(), is_admin);
        if is_admin || !apps.last().admin_only {
            rest.push(apps.last())
        } else {
            rest
        }
    }
}

/// The read-only mapping from application name to descriptor, loaded once at
/// startup.
#[derive(Debug)]
pub struct AppRegistry {
    apps: Vec<App>,
}

impl View for AppRegistry {
    type V = Seq<App>;

    closed spec fn view(&self) -> Seq<App> {
        self.apps@
    }
}

impl AppRegistry {
    /// An empty registry.
    pub fn new() -> (r: AppRegistry)
        ensures
            r@.len() == 0,
    {
        AppRegistry { apps: Vec::new() }
    }

    /// Registers an application; a name already present is refused.
    pub fn add(&mut self, app: App) -> (r: bool)
        ensures
            r == (forall|j: int| 0 <= j < old(self)@.len() ==> old(self)@[j].name@ != app.name@),
            r ==> final(self)@ == old(self)@.push(app),
            !r ==> final(self)@ == old(self)@,
    {
        let mut i: usize = 0;
        let n = self.apps.len();
        while i < n
            invariant
                n == self.apps@.len(),
                i <= n,
                *self == *old(self),
                forall|j: int| 0 <= j < i ==> self.apps@[j].name@ != app.name@,
            decreases n - i,
        {
            if str_eq(self.apps[i].name.as_str(), app.name.as_str()) {
                return false;
            }
            i += 1;
        }
        self.apps.push(app);
        true
    }

    /// Looks a name up; returns the registered application or nothing.
    pub fn get<'a>(&'a self, name: &str) -> (r: Option<&'a App>)
        ensures
            match r {
                Some(app) => spec_lookup(self@, name@) == Some(*app),
                None => spec_lookup(self@, name@) is None,
            },
    {
        let mut i: usize = 0;
        let n = self.apps.len();
        while i < n
            invariant
                n == self.apps@.len(),
                i <= n,
                forall|j: int| 0 <= j < i ==> self.apps@[j].name@ != name@,
            decreases n - i,
        {
            if str_eq(self.apps[i].name.as_str(), name) {
                proof {
                    lemma_lookup_at(self.apps@, name@, i as int);
                }
                return Some(&self.apps[i]);
            }
            i += 1;
        }
        proof {
            lemma_lookup_none(self.apps@, name@);
        }
        None
    }

    /// The applications a caller may see: every one, for an administrator;
    /// the ones not restricted to administrators, otherwise; registry order
    /// is kept.
    pub fn visible<'a>(&'a self, is_admin: bool) -> (r: Vec<&'a App>)
        ensures
            r@.len() == spec_visible(self@, is_admin).len(),
            forall|k: int|
                0 <= k < r@.len() ==> *(#[trigger] r@[k]) == spec_visible(self@, is_admin)[k],
    {
        let mut out: Vec<&'a App> = Vec::new();
        let n = self.apps.len();
        let mut i: usize = 0;
        while i < n
            invariant
                n == self.apps@.len(),
                i <= n,
                out@.len() == spec_visible(self.apps@.subrange(0, i as int), is_admin).len(),
                forall|k: int|
                    0 <= k < out@.len() ==> *(#[trigger] out@[k]) == spec_visible(
                        self.apps@.subrange(0, i as int),
                        is_admin,
                    )[k],
            decreases n - i,
        {
            if is_admin || !self.apps[i].admin_only {
                out.push(&self.apps[i]);
            }
            proof {
                let pre = self.apps@.subrange(0, i as int);
                let cur = self.apps@.subrange(0, i + 1);
                assert(cur.drop_last() =~= pre);
                assert(cur.last() == self.apps@[i as int]);
            }
            i += 1;
        }
        proof {
            assert(self.apps@.subrange(0, n as int) =~= self.apps@);
        }
        out
    }
}

/// The path of an application's entry-point executable under the configured
/// root: `<root>/<name>/open`.
pub open spec fn entry_point_program(root: Seq<char>, name: Seq<char>) -> Seq<char> {
    root + "/"@ + name + "/open"@
}

/// What the launch decides: a URL to redirect to now, or an entry-point
/// program to run first.
#[derive(Debug)]
pub enum LaunchPlan {
    RedirectTo(String),
    RunEntryPoint(String),
}

/// Resolves a requested application and enforces the admin-only restriction:
/// an unknown name is not found; an admin-only application is forbidden to
/// non-administrators; a static entry point yields its URL; a dynamic one
/// yields the entry-point program to invoke.
pub fn authorize_and_resolve(
    registry: &AppRegistry,
    app_name: &AppName,
    is_admin: bool,
    entry_points_root: &str,
) -> (r: Result<LaunchPlan, Error>)
    ensures
        match spec_lookup(registry@, app_name@) {
            None => r matches Err(e) && e is NotFound,
            Some(app) => {
                if app.admin_only && !is_admin {
                    r matches Err(e) && (e matches Error::Forbidden(m) && m@
                        == "Non-admins are not authorized to open admin-only apps"@)
                } else {
                    match app.entry_point {
                        EntryPoint::Static { url } => r matches Ok(LaunchPlan::RedirectTo(u))
                            && u@ == url@,
                        EntryPoint::Dynamic => r matches Ok(LaunchPlan::RunEntryPoint(p)) && p@
                            == entry_point_program(entry_points_root@, app_name@),
                    }
                }
            },
        },
{
    let app = match registry.get(app_name.as_str()) {
        Some(app) => app,
        None => {
            return Err(Error::NotFound);
        },
    };
    if app.admin_only && !is_admin {
        return Err(Error::Forbidden("Non-admins are not authorized to open admin-only apps"));
    }
    match &app.entry_point {
        EntryPoint::Static { url } => Ok(LaunchPlan::RedirectTo(url.clone())),
        EntryPoint::Dynamic => {
            let mut program = String::from_str(entry_points_root);
            program.append("/");
            program.append(app_name.as_str());
            program.append("/open");
            proof {
                assert(program@ =~= entry_point_program(entry_points_root@, app_name@));
            }
            Ok(LaunchPlan::RunEntryPoint(program))
        },
    }
}

/// The entry point's answer, as the exit-code protocol defines it: exit 0
/// allows and the standard output is the URL; exit 1 denies; anything else —
/// another exit code, death by a signal, or undecodable output — is a fault.
#[derive(Debug)]
pub enum EntryPointOutcome {
    Allow(String),
    Deny,
    Fault,
}

/// Interprets the entry point's exit status and decoded standard output.
/// `exit_code` is absent when the process died by a signal; `stdout` is
/// absent when the output was not valid text.
pub fn classify_entry_point(exit_code: Option<i32>, stdout: Option<String>) -> (r:
    EntryPointOutcome)
    ensures
        match exit_code {
            Some(0) => match stdout {
                Some(s) => r matches EntryPointOutcome::Allow(u) && u@ == trimmed(s@),
                None => r is Fault,
            },
            Some(1) => r is Deny,
            Some(_) => r is Fault,
            None => r is Fault,
        },
{
    match exit_code {
        Some(0) => match stdout {
            Some(s) => EntryPointOutcome::Allow(trim(s.as_str())),
            None => EntryPointOutcome::Fault,
        },
        Some(1) => EntryPointOutcome::Deny,
        Some(_) => EntryPointOutcome::Fault,
        None => EntryPointOutcome::Fault,
    }
}

/// Maps the entry point's answer to the launch result: allowed yields the
/// URL, denied is forbidden, a fault is an internal failure.
pub fn launch_result(outcome: EntryPointOutcome) -> (r: Result<String, Error>)
    ensures
        match outcome {
            EntryPointOutcome::Allow(u) => r matches Ok(url) && url == u,
            EntryPointOutcome::Deny => r matches Err(e) && (e matches Error::Forbidden(m) && m@
                == "You are not allowed to access this application"@),
            EntryPointOutcome::Fault => r matches Err(e) && e is InternalServerError,
        },
{
    match outcome {
        EntryPointOutcome::Allow(u) => Ok(u),
        EntryPointOutcome::Deny => Err(
            Error::Forbidden("You are not allowed to access this application"),
        ),
        EntryPointOutcome::Fault => Err(Error::InternalServerError),
    }
}

} // verus!
