//! The rules for raw apps: what a new app has to meet, and what an edit
//! changes.

use crate::text::same_text;
use vstd::prelude::*;
use vstd::string::*;
use vstd::utf8::encode_utf8;

verus! {

/// How many apps a workspace may hold on cloud.
pub const MAX_APPS_ON_CLOUD: i64 = 1000;

/// How many bytes the summary of an app may take on cloud.
pub const MAX_SUMMARY_BYTES_ON_CLOUD: usize = 300;

/// A new app.
#[derive(Debug, Clone, PartialEq, Eq)]
pub struct CreateApp {
    pub path: String,
    pub summary: String,
    pub value: String,
}

/// An edit of an app. What is `None` stays as it is.
#[derive(Debug, Clone, PartialEq, Eq)]
pub struct EditApp {
    pub path: Option<String>,
    pub summary: Option<String>,
    pub value: Option<String>,
}

/// What a listing of apps is narrowed by. What is `None` does not narrow it.
#[derive(Debug, Clone, PartialEq, Eq)]
pub struct ListAppQuery {
    pub starred_only: Option<bool>,
    pub path_start: Option<String>,
    pub path_exact: Option<String>,
}

/// A condition that the apps of a listing meet.
#[derive(Debug, Clone, Copy, PartialEq, Eq)]
pub enum Filter<'a> {
    /// The one who asks has starred the app.
    Starred,
    /// The path of the app starts with this text.
    PathStartsWith(&'a String),
    /// The path of the app is this text.
    PathIs(&'a String),
}

impl ListAppQuery {
    /// The conditions of the listing, in the order in which they are put:
    /// starred apps only, if that is asked for and not denied; then the start
    /// of the path; then the path itself.
    pub open spec fn spec_filters<'a>(&'a self) -> Seq<Filter<'a>> {
        let starred = if self.starred_only == Some(true) {
            seq![Filter::Starred]
        } else {
            Seq::empty()
        };
        let start = match &self.path_start {
            Some(p) => seq![Filter::PathStartsWith(p)],
            None => Seq::empty(),
        };
        let exact = match &self.path_exact {
            Some(p) => seq![Filter::PathIs(p)],
            None => Seq::empty(),
        };
        starred + start + exact
    }

    pub fn filters<'a>(&'a self) -> (filters: Vec<Filter<'a>>)
        ensures
            filters@ == self.spec_filters(),
    {
        let mut filters: Vec<Filter<'a>> = Vec::new();
        if let Some(true) = self.starred_only {
            filters.push(Filter::Starred);
        }
        if let Some(p) = &self.path_start {
            filters.push(Filter::PathStartsWith(p));
        }
        if let Some(p) = &self.path_exact {
            filters.push(Filter::PathIs(p));
        }
        assert(filters@ =~= self.spec_filters());
        filters
    }
}

/// Why a new app is refused.
#[derive(Debug, Clone, Copy, PartialEq, Eq)]
pub enum CreateAppError {
    TooManyApps,
    SummaryTooLong,
    EmptyPath,
    AlreadyExists,
}

/// The number of bytes that a text takes.
pub open spec fn byte_len(text: Seq<char>) -> nat {
    encode_utf8(text).len()
}

/// A column of an app that an edit sets.
#[derive(Debug, Clone, Copy, PartialEq, Eq)]
pub enum Assignment<'a> {
    Path(&'a String),
    Summary(&'a String),
    Data(&'a String),
    /// The version goes up by one.
    NextVersion,
}

/// The text of `{:?}` for a string: the string in quotes, with what cannot be
/// read as it stands written as an escape.
pub uninterp spec fn quoted(text: Seq<char>) -> Seq<char>;

/// A string as `{:?}` writes it.
///
/// Calls `format!` with `{:?}` on a `str`. The result depends on the text
/// alone.
#[verifier::external_body]
fn quote(text: &str) -> (q: String)
    ensures
        q@ == quoted(text@),
{
    format!("{:?}", text)
}

impl CreateApp {
    /// What cloud asks of a new app, given the number of apps that the
    /// workspace holds; an unknown number counts as none.
    pub open spec fn spec_check_cloud_limits(&self, nb_apps: Option<i64>) -> Result<
        (),
        CreateAppError,
    > {
        if nb_apps matches Some(n) && n >= MAX_APPS_ON_CLOUD {
            Err(CreateAppError::TooManyApps)
        } else if byte_len(self.summary@) > MAX_SUMMARY_BYTES_ON_CLOUD {
            Err(CreateAppError::SummaryTooLong)
        } else {
            Ok(())
        }
    }

    #[verifier::when_used_as_spec(spec_check_cloud_limits)]
    pub fn check_cloud_limits(&self, nb_apps: Option<i64>) -> (r: Result<(), CreateAppError>)
        ensures
            r == self.spec_check_cloud_limits(nb_apps),
    {
        let too_many = match nb_apps {
            Some(n) => n >= MAX_APPS_ON_CLOUD,
            None => false,
        };
        if too_many {
            Err(CreateAppError::TooManyApps)
        } else if self.summary.as_str().as_bytes().len() > MAX_SUMMARY_BYTES_ON_CLOUD {
            Err(CreateAppError::SummaryTooLong)
        } else {
            Ok(())
        }
    }

    /// An app needs a path.
    pub fn check_path(&self) -> (r: Result<(), CreateAppError>)
        ensures
            r == if self.path@.len() == 0 {
                Err::<(), CreateAppError>(CreateAppError::EmptyPath)
            } else {
                Ok(())
            },
    {
        if self.path.as_str().is_empty() {
            Err(CreateAppError::EmptyPath)
        } else {
            Ok(())
        }
    }

    /// A path takes one app. `exists` is what a lookup of the path said; no
    /// answer counts as no.
    pub fn check_unused(&self, exists: Option<bool>) -> (r: Result<(), CreateAppError>)
        ensures
            r == if exists == Some(true) {
                Err::<(), CreateAppError>(CreateAppError::AlreadyExists)
            } else {
                Ok(())
            },
    {
        match exists {
            Some(true) => Err(CreateAppError::AlreadyExists),
            _ => Ok(()),
        }
    }

    /// What the one who asked is told of a refusal.
    pub open spec fn refusal(&self, error: CreateAppError) -> Seq<char> {
        match error {
            CreateAppError::TooManyApps =>
                "You have reached the maximum number of apps (1000) on cloud. Contact support@windmill.dev to increase the limit"@,
            CreateAppError::SummaryTooLong => "Summary must be less than 300 characters on cloud"@,
            CreateAppError::EmptyPath => "App path cannot be empty"@,
            CreateAppError::AlreadyExists => "App with path "@ + self.path@ + " already exists"@,
        }
    }

    pub fn refusal_message(&self, error: CreateAppError) -> (message: String)
        ensures
            message@ == self.refusal(error),
    {
        match error {
            CreateAppError::TooManyApps => String::from_str(
                "You have reached the maximum number of apps (1000) on cloud. Contact support@windmill.dev to increase the limit",
            ),
            CreateAppError::SummaryTooLong => String::from_str(
                "Summary must be less than 300 characters on cloud",
            ),
            CreateAppError::EmptyPath => String::from_str("App path cannot be empty"),
            CreateAppError::AlreadyExists => already_exists_message(self.path.as_str()),
        }
    }
}

/// What is said of a path that is taken.
pub fn already_exists_message(path: &str) -> (message: String)
    ensures
        message@ == "App with path "@ + path@ + " already exists"@,
{
    let mut message = String::from_str("App with path ");
    message.append(path);
    message.append(" already exists");
    message
}

/// The scope that reading the app at `path` takes.
pub fn read_scope(path: &str) -> (scope: String)
    ensures
        scope@ == "raw_apps:read:"@ + path@,
{
    let mut scope = String::from_str("raw_apps:read:");
    scope.append(path);
    scope
}

/// The scope that writing the app at `path` takes.
pub fn write_scope(path: &str) -> (scope: String)
    ensures
        scope@ == "raw_apps:write:"@ + path@,
{
    let mut scope = String::from_str("raw_apps:write:");
    scope.append(path);
    scope
}

/// What is said once the app at `path` is deleted.
pub fn deleted_message(path: &str) -> (message: String)
    ensures
        message@ == "app "@ + path@ + " deleted"@,
{
    let mut message = String::from_str("app ");
    message.append(path);
    message.append(" deleted");
    message
}

/// What is said once the app at `path` is updated, given its new path as
/// `{:?}` writes it.
pub fn updated_message_with(path: &str, quoted_new_path: &str) -> (message: String)
    ensures
        message@ == "app "@ + path@ + " updated (npath: "@ + quoted_new_path@ + ")"@,
{
    let mut message = String::from_str("app ");
    message.append(path);
    message.append(" updated (npath: ");
    message.append(quoted_new_path);
    message.append(")");
    message
}

/// What is said once the app at `path` is updated and stands at `new_path`.
pub fn updated_message(path: &str, new_path: &str) -> (message: String)
    ensures
        message@ == "app "@ + path@ + " updated (npath: "@ + quoted(new_path@) + ")"@,
{
    let q = quote(new_path);
    updated_message_with(path, q.as_str())
}

impl EditApp {
    /// Whether the edit moves the app at `path` to another path. A move needs
    /// the rights of an owner of `path`, and the new path must be free.
    pub open spec fn spec_moves(&self, path: Seq<char>) -> bool {
        self.path matches Some(new_path) && new_path@ != path
    }

    pub fn moves(&self, path: &str) -> (b: bool)
        ensures
            b == self.spec_moves(path@),
    {
        match &self.path {
            Some(new_path) => !same_text(new_path.as_str(), path),
            None => false,
        }
    }

    /// The path of the app at `path` after the edit.
    pub fn new_path(&self, path: &str) -> (new_path: String)
        ensures
            new_path@ == match self.path {
                Some(p) => p@,
                None => path@,
            },
    {
        match &self.path {
            Some(p) => p.clone(),
            None => String::from_str(path),
        }
    }

    /// The columns that the edit sets, in the order in which they are set: the
    /// path, the summary, then the data with the version.
    pub open spec fn spec_assignments<'a>(&'a self) -> Seq<Assignment<'a>> {
        let path = match &self.path {
            Some(p) => seq![Assignment::Path(p)],
            None => Seq::empty(),
        };
        let summary = match &self.summary {
            Some(s) => seq![Assignment::Summary(s)],
            None => Seq::empty(),
        };
        let data = match &self.value {
            Some(v) => seq![Assignment::Data(v), Assignment::NextVersion],
            None => Seq::empty(),
        };
        path + summary + data
    }

    pub fn assignments<'a>(&'a self) -> (set: Vec<Assignment<'a>>)
        ensures
            set@ == self.spec_assignments(),
    {
        let mut set: Vec<Assignment<'a>> = Vec::new();
        if let Some(p) = &self.path {
            set.push(Assignment::Path(p));
        }
        if let Some(s) = &self.summary {
            set.push(Assignment::Summary(s));
        }
        if let Some(v) = &self.value {
            set.push(Assignment::Data(v));
            set.push(Assignment::NextVersion);
        }
        set
    }
}

} // verus!
