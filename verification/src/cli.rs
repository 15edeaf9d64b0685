use vstd::prelude::*;

use crate::casing::snake_spec;
use crate::casing::to_snake_case;
use crate::error::TmError;
use crate::error::TmResult;

verus! {

/// The kind of work a task stands for; it prefixes branch names and paths.
#[derive(Debug, Clone, Copy)]
pub enum Level {
    Feature,
    Fix,
    Chore,
    Docs,
    Refactor,
    Test,
    Perf,
    Style,
    Ci,
}

/// The lowercase name of a level.
pub open spec fn level_str(l: Level) -> Seq<char> {
    match l {
        Level::Feature => "feature"@,
        Level::Fix => "fix"@,
        Level::Chore => "chore"@,
        Level::Docs => "docs"@,
        Level::Refactor => "refactor"@,
        Level::Test => "test"@,
        Level::Perf => "perf"@,
        Level::Style => "style"@,
        Level::Ci => "ci"@,
    }
}

impl Level {
    /// The lowercase name of this level, for branch names and paths.
    pub fn as_str(&self) -> (r: &'static str)
        ensures
            r@ == level_str(*self),
    {
        match self {
            Level::Feature => "feature",
            Level::Fix => "fix",
            Level::Chore => "chore",
            Level::Docs => "docs",
            Level::Refactor => "refactor",
            Level::Test => "test",
            Level::Perf => "perf",
            Level::Style => "style",
            Level::Ci => "ci",
        }
    }
}

/// How a task listing is rendered.
#[derive(Debug, Clone, Copy)]
pub enum OutputFormat {
    /// Table format with columns.
    Table,
    /// Simple list format.
    Simple,
    /// JSON format for scripting.
    Json,
}

/// One invocation's command and arguments, as plain data.
#[allow(inconsistent_fields)]
pub enum Commands {
    /// Add a new task backed by a fresh worktree.
    Add {
        project: String,
        main_repo_path: String,
        level: Level,
        id: String,
        name: String,
        description: Option<String>,
        remote_url: Option<String>,
        api_url: Option<String>,
    },
    /// List tasks.
    List { project: Option<String>, format: OutputFormat },
    /// Remove a task.
    Remove { project: String, title: String, remove_worktree: bool, force: bool },
    /// Switch to a task: print its worktree path.
    Switch { project: String, title: String },
}

/// A parsed command line.
pub struct Cli {
    pub command: Commands,
}

/// What `char::is_whitespace` returns for a character.
pub uninterp spec fn white_of(c: char) -> bool;

/// Relies on `char::is_whitespace`: whether the character has the Unicode
/// `White_Space` property, a function of the character alone.
#[verifier::external_body]
fn char_is_whitespace(c: char) -> (r: bool)
    ensures
        r == white_of(c),
{
    c.is_whitespace()
}

/// A string of nothing but whitespace (the empty string included): exactly
/// the strings `str::trim` reduces to nothing.
pub open spec fn blank_spec(s: Seq<char>) -> bool {
    forall|i: int| 0 <= i < s.len() ==> white_of(#[trigger] s[i])
}

/// Reject a task name with no word characters, then an identifier of
/// nothing but whitespace; accept everything else.
pub fn validate_inputs(id: &str, name: &str) -> (r: TmResult<()>)
    ensures
        snake_spec(name@).len() == 0 ==> (r matches Err(TmError::InvalidInput { field: f, .. })
            && f@ == "name"@),
        snake_spec(name@).len() > 0 && blank_spec(id@) ==> (r matches Err(
            TmError::InvalidInput { field: f, .. },
        ) && f@ == "id"@),
        snake_spec(name@).len() > 0 && !blank_spec(id@) ==> r is Ok,
{
    let name_snake = to_snake_case(name);
    if name_snake.as_str().unicode_len() == 0 {
        return Err(
            TmError::InvalidInput {
                field: ("name").to_owned(),
                reason: ("Name must contain alphanumeric characters").to_owned(),
            },
        );
    }
    let n = id.unicode_len();
    let mut i: usize = 0;
    while i < n
        invariant
            snake_spec(name@).len() > 0,
            n == id@.len(),
            i <= n,
            forall|k: int| 0 <= k < i ==> white_of(#[trigger] id@[k]),
        decreases n - i,
    {
        if !char_is_whitespace(id.get_char(i)) {
            return Ok(());
        }
        i += 1;
    }
    Err(
        TmError::InvalidInput {
            field: ("id").to_owned(),
            reason: ("ID cannot be empty").to_owned(),
        },
    )
}

} // verus!
