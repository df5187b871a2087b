use vstd::prelude::*;
use vstd::string::StringExecFns;

use crate::errors::Error;
use crate::launcher::chain_result;
use crate::launcher::is_terminal;
use crate::launcher::is_terminal_spec;
use crate::launcher::platform_of;
use crate::launcher::platform_spec;
use crate::launcher::run_chain;
use crate::launcher::advance;
use crate::launcher::launch_result;
use crate::launcher::LaunchState;
use crate::launcher::SpawnOutcome;

verus! {

/// How creating the notes directory went. The directory already existing
/// is deliberately not a failure: creation is idempotent.
#[derive(Debug, Clone, Copy, PartialEq, Eq, Structural)]
pub enum DirOutcome {
    /// The directory was created by this invocation.
    Created,
    /// The directory was already there.
    AlreadyExists,
    /// Creation failed for any other reason.
    Failed,
}

/// The notes directory under a home directory.
pub open spec fn notes_dir_spec(home: Seq<char>) -> Seq<char> {
    home + "/notes"@
}

/// The destination path of a note: `<home>/notes/<title>.md`.
pub open spec fn note_path_spec(home: Seq<char>, title: Seq<char>) -> Seq<char> {
    home + "/notes/"@ + title + ".md"@
}

/// The exact header a fresh note file holds: a top-level heading with the
/// title, a second-level heading with the date, and one blank line.
pub open spec fn header_spec(title: Seq<char>, date: Seq<char>) -> Seq<char> {
    "# "@ + title + "\n## "@ + date + "\n\n"@
}

/// The view of an optional home directory string.
pub open spec fn home_view(home: Option<String>) -> Option<Seq<char>> {
    match home {
        Some(h) => Some(h@),
        None => None,
    }
}

/// What path resolution must return, given the title, the home lookup's
/// result, how creating the notes directory went, and whether the target
/// file already exists.
pub open spec fn resolve_matches(
    r: Result<String, Error>,
    title: Seq<char>,
    home: Option<Seq<char>>,
    mkdir: DirOutcome,
    exists: bool,
) -> bool {
    match home {
        None => r == Err::<String, Error>(Error::EnvironmentError),
        Some(h) => if mkdir is Failed {
            r == Err::<String, Error>(Error::IOError)
        } else if exists {
            r matches Err(Error::DuplicateError(p)) && p@ == note_path_spec(h, title)
        } else {
            r matches Ok(p) && p@ == note_path_spec(h, title)
        },
    }
}

/// What file initialization must return, given the target path, whether
/// the defensive re-check found the file already present, and whether the
/// create-and-write succeeded.
pub open spec fn create_matches(
    r: Result<(), Error>,
    path: Seq<char>,
    exists: bool,
    write_ok: bool,
) -> bool {
    if exists {
        r matches Err(Error::DuplicateError(p)) && p@ == path
    } else if !write_ok {
        r == Err::<(), Error>(Error::IOError)
    } else {
        r == Ok::<(), Error>(())
    }
}

/// What a whole invocation must return for a given title, given every
/// outside event it consumes: resolution first, then the defensive
/// re-check and the write, then the editor-launch chain.
pub open spec fn run_matches(
    r: Result<(), Error>,
    title: Seq<char>,
    home: Option<Seq<char>>,
    mkdir: DirOutcome,
    exists: bool,
    exists2: bool,
    write_ok: bool,
    supported: bool,
    outcomes: Seq<SpawnOutcome>,
) -> bool {
    match home {
        None => r == Err::<(), Error>(Error::EnvironmentError),
        Some(h) => if mkdir is Failed {
            r == Err::<(), Error>(Error::IOError)
        } else if exists {
            r matches Err(Error::DuplicateError(p)) && p@ == note_path_spec(h, title)
        } else if exists2 {
            r matches Err(Error::DuplicateError(p)) && p@ == note_path_spec(h, title)
        } else if !write_ok {
            r == Err::<(), Error>(Error::IOError)
        } else {
            r == chain_result(run_chain(LaunchState::TryGui, outcomes, supported))
        },
    }
}

/// The notes directory under `home`, as a path string.
pub fn notes_dir(home: &str) -> (r: String)
    ensures
        r@ == notes_dir_spec(home@),
{
    home.to_owned().concat("/notes")
}

/// The destination path of the note titled `title` under `home`.
pub fn note_path(home: &str, title: &str) -> (r: String)
    ensures
        r@ == note_path_spec(home@, title@),
{
    let r = home.to_owned().concat("/notes/").concat(title).concat(".md");
    proof {
        assert(r@ =~= note_path_spec(home@, title@));
    }
    r
}

/// One note being created: its title, the date it carries, and — once
/// resolution has succeeded — its destination path.
pub struct Note {
    pub title: String,
    pub date: String,
    pub path: String,
}

impl Note {
    /// A fresh request for a note with this title, dated `date`; the path
    /// stays empty until resolution succeeds.
    pub fn new(title: String, date: String) -> (n: Note)
        ensures
            n.title == title,
            n.date == date,
            n.path@ == Seq::<char>::empty(),
    {
        Note { title, date, path: String::new() }
    }

    /// The exact content a fresh note file is initialized with.
    pub fn header_content(&self) -> (r: String)
        ensures
            r@ == header_spec(self.title@, self.date@),
    {
        let mut s = String::from_str("# ");
        s.append(self.title.as_str());
        s.append("\n## ");
        s.append(self.date.as_str());
        s.append("\n\n");
        proof {
            assert(s@ =~= header_spec(self.title@, self.date@));
        }
        s
    }

    /// Path resolution: decides the destination path of this note from
    /// the home lookup's result, the outcome of creating the notes
    /// directory, and whether the destination already exists.
    pub fn path_from_filename(
        &self,
        home: &Option<String>,
        mkdir: DirOutcome,
        exists: bool,
    ) -> (r: Result<String, Error>)
        ensures
            resolve_matches(r, self.title@, home_view(*home), mkdir, exists),
    {
        match home {
            None => Err(Error::EnvironmentError),
            Some(h) => {
                if let DirOutcome::Failed = mkdir {
                    return Err(Error::IOError);
                }
                let p = note_path(h.as_str(), self.title.as_str());
                if exists {
                    Err(Error::DuplicateError(p))
                } else {
                    Ok(p)
                }
            },
        }
    }

    /// File initialization: decides the result of creating this note's
    /// file from the defensive existence re-check and the outcome of the
    /// create-and-write. The content written is `header_content`.
    pub fn create_file(&self, exists: bool, write_ok: bool) -> (r: Result<(), Error>)
        ensures
            create_matches(r, self.path@, exists, write_ok),
    {
        if exists {
            Err(Error::DuplicateError(self.path.clone()))
        } else if !write_ok {
            Err(Error::IOError)
        } else {
            Ok(())
        }
    }

    /// The editor-launch fallback chain, run against a recorded sequence
    /// of spawn outcomes: the outcomes are consumed in chain order (GUI
    /// editor, then primary shell, then alternate shell) until the chain
    /// reaches a terminal state or runs out of outcomes.
    pub fn open_file_with_editor(&self, os: &str, outcomes: &Vec<SpawnOutcome>) -> (r: Result<
        (),
        Error,
    >)
        ensures
            r == chain_result(
                run_chain(LaunchState::TryGui, outcomes@, platform_spec(os@) is Some),
            ),
    {
        let supported = platform_of(os).is_some();
        let mut state = LaunchState::TryGui;
        let mut i: usize = 0;
        proof {
            assert(outcomes@.skip(0) =~= outcomes@);
        }
        while i < outcomes.len() && !is_terminal(state)
            invariant
                0 <= i <= outcomes@.len(),
                supported == (platform_spec(os@) is Some),
                run_chain(LaunchState::TryGui, outcomes@, supported) == run_chain(
                    state,
                    outcomes@.skip(i as int),
                    supported,
                ),
            decreases outcomes@.len() - i,
        {
            let o = outcomes[i];
            proof {
                let rest = outcomes@.skip(i as int);
                assert(rest.len() > 0);
                assert(rest[0] == outcomes@[i as int]);
                assert(rest.drop_first() =~= outcomes@.skip(i as int + 1));
            }
            state = advance(state, o, supported);
            i = i + 1;
        }
        proof {
            if is_terminal_spec(state) {
                assert(run_chain(state, outcomes@.skip(i as int), supported) == state);
            } else {
                assert(i == outcomes@.len());
                assert(outcomes@.skip(i as int).len() == 0);
                assert(run_chain(state, outcomes@.skip(i as int), supported) == state);
            }
        }
        launch_result(state)
    }

    /// One whole invocation for this note, run against recorded outside
    /// events: resolve the path (attaching it to the note on success),
    /// initialize the file, then run the editor-launch chain.
    pub fn build(
        &mut self,
        home: &Option<String>,
        mkdir: DirOutcome,
        exists: bool,
        exists2: bool,
        write_ok: bool,
        os: &str,
        outcomes: &Vec<SpawnOutcome>,
    ) -> (r: Result<(), Error>)
        ensures
            final(self).title == old(self).title,
            final(self).date == old(self).date,
            run_matches(
                r,
                old(self).title@,
                home_view(*home),
                mkdir,
                exists,
                exists2,
                write_ok,
                platform_spec(os@) is Some,
                outcomes@,
            ),
            home_view(*home) matches Some(h) ==> ((!(mkdir is Failed) && !exists) ==> final(
                self).path@ == note_path_spec(h, old(self).title@)),
            (home_view(*home) is None || mkdir is Failed || exists) ==> final(self).path == old(
                self).path,
    {
        let path = match self.path_from_filename(home, mkdir, exists) {
            Ok(p) => p,
            Err(e) => {
                return Err(e);
            },
        };
        self.path = path;
        match self.create_file(exists2, write_ok) {
            Ok(_) => {},
            Err(e) => {
                return Err(e);
            },
        }
        self.open_file_with_editor(os, outcomes)
    }
}

/// Relies on chrono's `Local::now` and date formatting: the local date at
/// the moment of the call, rendered as `YYYY-MM-DD`. The value depends on
/// the clock, so nothing is promised of it.
#[verifier::external_body]
fn today_string() -> String {
    chrono::Local::now().format("%Y-%m-%d").to_string()
}

/// Relies on `dirs::home_dir`: the user's home directory, if the platform
/// reports one that is valid text. The value depends on the environment,
/// so nothing is promised of it.
#[verifier::external_body]
fn home_dir_string() -> Option<String> {
    match dirs::home_dir() {
        Some(p) => match p.into_os_string().into_string() {
            Ok(s) => Some(s),
            Err(_) => None,
        },
        None => None,
    }
}

/// One whole invocation with every outside event given explicitly,
/// including the home lookup's result and the date: the argument list is
/// the full command line (its first element the program name).
pub fn run_with(
    args: &Vec<String>,
    home: &Option<String>,
    date: String,
    mkdir: DirOutcome,
    exists: bool,
    exists2: bool,
    write_ok: bool,
    os: &str,
    outcomes: &Vec<SpawnOutcome>,
) -> (r: Result<(), Error>)
    ensures
        (r == Err::<(), Error>(Error::MissingArgument)) <==> args@.len() < 2,
        args@.len() >= 2 ==> run_matches(
            r,
            args@[1]@,
            home_view(*home),
            mkdir,
            exists,
            exists2,
            write_ok,
            platform_spec(os@) is Some,
            outcomes@,
        ),
{
    if args.len() < 2 {
        return Err(Error::MissingArgument);
    }
    let title = args[1].clone();
    let mut note = Note::new(title, date);
    note.build(home, mkdir, exists, exists2, write_ok, os, outcomes)
}

/// One whole invocation as the command line sees it: the title comes from
/// the argument list, the date from the clock and the home directory from
/// the environment; the remaining outside events are given explicitly.
pub fn run(
    args: &Vec<String>,
    mkdir: DirOutcome,
    exists: bool,
    exists2: bool,
    write_ok: bool,
    os: &str,
    outcomes: &Vec<SpawnOutcome>,
) -> (r: Result<(), Error>)
    ensures
        (r == Err::<(), Error>(Error::MissingArgument)) <==> args@.len() < 2,
        args@.len() >= 2 ==> exists|h: Option<Seq<char>>|
            #[trigger] run_matches(
                r,
                args@[1]@,
                h,
                mkdir,
                exists,
                exists2,
                write_ok,
                platform_spec(os@) is Some,
                outcomes@,
            ),
{
    let home = home_dir_string();
    let date = today_string();
    let r = run_with(args, &home, date, mkdir, exists, exists2, write_ok, os, outcomes);
    proof {
        if args@.len() >= 2 {
            let h = home_view(home);
            assert(run_matches(
                r,
                args@[1]@,
                h,
                mkdir,
                exists,
                exists2,
                write_ok,
                platform_spec(os@) is Some,
                outcomes@,
            ));
        }
    }
    r
}

/// For every valid title with no file already at its destination,
/// resolution succeeds with exactly `<home>/notes/<title>.md` and file
/// initialization succeeds; the content written is `header_content`,
/// which is exactly the header template for the title and date.
pub proof fn lemma_fresh_note_created(
    title: Seq<char>,
    h: Seq<char>,
    mkdir: DirOutcome,
    rr: Result<String, Error>,
    rc: Result<(), Error>,
)
    requires
        !(mkdir is Failed),
        resolve_matches(rr, title, Some(h), mkdir, false),
        create_matches(rc, note_path_spec(h, title), false, true),
    ensures
        rr matches Ok(p) && p@ == note_path_spec(h, title),
        rc == Ok::<(), Error>(()),
{
}

/// For every title whose destination already exists, resolution fails
/// with a duplicate error naming exactly that destination — and a second
/// resolution against the same state fails the same way: the failure has
/// no side effect to change it.
pub proof fn lemma_duplicate_idempotent(
    title: Seq<char>,
    h: Seq<char>,
    mkdir: DirOutcome,
    r1: Result<String, Error>,
    r2: Result<String, Error>,
)
    requires
        !(mkdir is Failed),
        resolve_matches(r1, title, Some(h), mkdir, true),
        resolve_matches(r2, title, Some(h), mkdir, true),
    ensures
        r1 matches Err(Error::DuplicateError(p1)) && p1@ == note_path_spec(h, title),
        r2 matches Err(Error::DuplicateError(p2)) && p2@ == note_path_spec(h, title),
{
}

/// Creating the notes directory is idempotent: resolution cannot tell a
/// directory this invocation created from one that already existed, so a
/// second invocation against an existing directory decides exactly as the
/// first did.
pub proof fn lemma_mkdir_idempotent(
    r: Result<String, Error>,
    title: Seq<char>,
    h: Seq<char>,
    exists: bool,
)
    ensures
        resolve_matches(r, title, Some(h), DirOutcome::Created, exists) == resolve_matches(
            r,
            title,
            Some(h),
            DirOutcome::AlreadyExists,
            exists,
        ),
{
}

} // verus!
