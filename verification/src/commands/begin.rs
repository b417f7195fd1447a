//! Setting up the files and directories of a new project.
//!
//! The command itself touches no file system. It is a machine that is told
//! what the last operation gave and answers with the operation to do next:
//! first it looks at what is there, then it creates what is missing, and when
//! an operation fails it takes back what it has created, in a fixed order.

use vstd::prelude::*;
use vstd::string::StringExecFns;

verus! {

/// The parts of a project.
#[derive(Clone, Copy, Debug, PartialEq, Eq, Structural)]
pub enum Part {
    /// The project's directory.
    Root,
    /// The directory of the revisions, inside the root.
    Revisions,
    /// The configuration file.
    Conf,
    /// The environment file.
    Env,
    /// The example of an environment file.
    EnvExample,
}

/// One operation on the file system.
#[derive(Clone, Copy, Debug, PartialEq, Eq, Structural)]
pub enum Task {
    /// Find out what is at the part's path.
    Inspect(Part),
    /// Create the part as a directory.
    MakeDir(Part),
    /// Create the part as an empty file.
    Create(Part),
    /// Write the part's template into the file that was just created.
    Write(Part),
    /// Remove the part, a file.
    RemoveFile(Part),
    /// Remove the part, a directory.
    RemoveDir(Part),
}

/// What is at a path.
#[derive(Clone, Copy, Debug, PartialEq, Eq, Structural)]
pub enum Found {
    /// Nothing.
    Nothing,
    /// Something that is no directory.
    File,
    /// A directory without entries.
    EmptyDirectory,
    /// A directory with entries.
    Directory,
}

/// What an operation gave.
#[derive(Clone, Copy, Debug, PartialEq, Eq, Structural)]
pub enum Reply {
    /// The answer to [`Task::Inspect`].
    Found(Found),
    /// The operation was carried out.
    Done,
    /// The operation failed.
    Failed,
}

/// Why the project was not set up.
#[derive(Clone, Copy, Debug, PartialEq, Eq, Structural)]
pub enum Refusal {
    /// The part should be a directory and is something else.
    NotDirectory(Part),
    /// The part should be an empty directory and has entries.
    NotEmpty(Part),
    /// The part is a file of the project and is already there.
    AlreadyExists(Part),
    /// The operation failed, or its reply was not one to it. What had been
    /// created was removed again.
    Failed(Task),
    /// The removal failed while what had been created was taken back. The
    /// failure that made it necessary is not reported.
    RevertFailed(Task),
}

/// What the command wants next.
#[derive(Clone, Copy, Debug, PartialEq, Eq, Structural)]
pub enum Next {
    /// This operation, and its reply.
    Do(Task),
    /// Nothing: the project is set up.
    Done,
    /// Nothing: the project is not set up.
    Stop(Refusal),
}

/// Where the command stands.
#[derive(Clone, Copy, Debug, PartialEq, Eq, Structural)]
pub enum Stage {
    /// It waits for the reply to an operation that looks or creates.
    Asked(Task),
    /// It takes back what it created after `cause` failed, and waits for the
    /// reply to the removal `task`.
    Reverting { task: Task, cause: Task },
    /// It has set the project up.
    Succeeded,
    /// It has given up.
    Stopped(Refusal),
}

/// The command as its contracts see it.
pub struct Setup {
    pub created_revisions: bool,
    pub created_root: bool,
    pub created_conf: bool,
    pub created_env: bool,
    pub created_env_ex: bool,
    /// The root was found missing.
    pub root_missing: bool,
    /// The directory of the revisions was found missing.
    pub revisions_missing: bool,
    pub stage: Stage,
}

/// The place of a part in the order in which parts are taken back: files
/// first, then the directory inside the root, then the root.
pub open spec fn rank(part: Part) -> int {
    match part {
        Part::Conf => 0,
        Part::Env => 1,
        Part::EnvExample => 2,
        Part::Revisions => 3,
        Part::Root => 4,
    }
}

/// The part that an operation is about.
pub open spec fn part_of(task: Task) -> Part {
    match task {
        Task::Inspect(p) => p,
        Task::MakeDir(p) => p,
        Task::Create(p) => p,
        Task::Write(p) => p,
        Task::RemoveFile(p) => p,
        Task::RemoveDir(p) => p,
    }
}

/// Whether the command has created the part.
pub open spec fn created(m: Setup, part: Part) -> bool {
    match part {
        Part::Root => m.created_root,
        Part::Revisions => m.created_revisions,
        Part::Conf => m.created_conf,
        Part::Env => m.created_env,
        Part::EnvExample => m.created_env_ex,
    }
}

/// The command before anything was done.
pub open spec fn fresh() -> Setup {
    Setup {
        created_revisions: false,
        created_root: false,
        created_conf: false,
        created_env: false,
        created_env_ex: false,
        root_missing: false,
        revisions_missing: false,
        stage: Stage::Asked(Task::Inspect(Part::Root)),
    }
}

/// The command asks for `task`.
pub open spec fn ask(m: Setup, task: Task) -> (Setup, Next) {
    (Setup { stage: Stage::Asked(task), ..m }, Next::Do(task))
}

/// The command gives up.
pub open spec fn stop(m: Setup, refusal: Refusal) -> (Setup, Next) {
    (Setup { stage: Stage::Stopped(refusal), ..m }, Next::Stop(refusal))
}

/// The command goes on taking back what it created: it removes the first
/// part at or after the place `from` that it created, and gives up with the
/// failure of `cause` when there is none left.
pub open spec fn undo(m: Setup, from: int, cause: Task) -> (Setup, Next) {
    if from <= 0 && m.created_conf {
        let task = Task::RemoveFile(Part::Conf);
        (Setup { stage: Stage::Reverting { task, cause }, ..m }, Next::Do(task))
    } else if from <= 1 && m.created_env {
        let task = Task::RemoveFile(Part::Env);
        (Setup { stage: Stage::Reverting { task, cause }, ..m }, Next::Do(task))
    } else if from <= 2 && m.created_env_ex {
        let task = Task::RemoveFile(Part::EnvExample);
        (Setup { stage: Stage::Reverting { task, cause }, ..m }, Next::Do(task))
    } else if from <= 3 && m.created_revisions {
        let task = Task::RemoveDir(Part::Revisions);
        (Setup { stage: Stage::Reverting { task, cause }, ..m }, Next::Do(task))
    } else if from <= 4 && m.created_root {
        let task = Task::RemoveDir(Part::Root);
        (Setup { stage: Stage::Reverting { task, cause }, ..m }, Next::Do(task))
    } else {
        stop(m, Refusal::Failed(cause))
    }
}

/// The command goes on after the root is there: it creates the directory of
/// the revisions if that was missing, and the configuration file if not.
pub open spec fn after_root(m: Setup) -> (Setup, Next) {
    if m.revisions_missing {
        ask(m, Task::MakeDir(Part::Revisions))
    } else {
        ask(m, Task::Create(Part::Conf))
    }
}

/// The command goes on after it has looked at every part: it creates the
/// root if that was missing.
pub open spec fn after_survey(m: Setup) -> (Setup, Next) {
    if m.root_missing {
        ask(m, Task::MakeDir(Part::Root))
    } else {
        after_root(m)
    }
}

/// The command after it was told what is at `part`.
///
/// The root and the directory of the revisions may be missing, and are then
/// created; the root may be any directory, the directory of the revisions
/// only an empty one. No file of the project may be there.
pub open spec fn surveyed(m: Setup, part: Part, found: Found) -> (Setup, Next) {
    match part {
        Part::Root => match found {
            Found::Nothing => ask(Setup { root_missing: true, ..m }, Task::Inspect(Part::Conf)),
            Found::File => stop(m, Refusal::NotDirectory(Part::Root)),
            _ => ask(m, Task::Inspect(Part::Conf)),
        },
        Part::Conf => match found {
            Found::Nothing => ask(m, Task::Inspect(Part::Env)),
            _ => stop(m, Refusal::AlreadyExists(Part::Conf)),
        },
        Part::Env => match found {
            Found::Nothing => ask(m, Task::Inspect(Part::EnvExample)),
            _ => stop(m, Refusal::AlreadyExists(Part::Env)),
        },
        Part::EnvExample => match found {
            Found::Nothing => ask(m, Task::Inspect(Part::Revisions)),
            _ => stop(m, Refusal::AlreadyExists(Part::EnvExample)),
        },
        Part::Revisions => match found {
            Found::Nothing => after_survey(Setup { revisions_missing: true, ..m }),
            Found::File => stop(m, Refusal::NotDirectory(Part::Revisions)),
            Found::EmptyDirectory => after_survey(m),
            Found::Directory => stop(m, Refusal::NotEmpty(Part::Revisions)),
        },
    }
}

/// The command after the operation `task`, which creates, was carried out.
///
/// A part counts as created as soon as it is there, a file before its
/// template is written, so that a failure to write still has it removed.
pub open spec fn carried_out(m: Setup, task: Task) -> (Setup, Next) {
    match task {
        Task::MakeDir(Part::Root) => after_root(Setup { created_root: true, ..m }),
        Task::MakeDir(Part::Revisions) => ask(
            Setup { created_revisions: true, ..m },
            Task::Create(Part::Conf),
        ),
        Task::Create(Part::Conf) => ask(Setup { created_conf: true, ..m }, Task::Write(Part::Conf)),
        Task::Write(Part::Conf) => ask(m, Task::Create(Part::Env)),
        Task::Create(Part::Env) => ask(Setup { created_env: true, ..m }, Task::Write(Part::Env)),
        Task::Write(Part::Env) => ask(m, Task::Create(Part::EnvExample)),
        Task::Create(Part::EnvExample) => ask(
            Setup { created_env_ex: true, ..m },
            Task::Write(Part::EnvExample),
        ),
        Task::Write(Part::EnvExample) => (Setup { stage: Stage::Succeeded, ..m }, Next::Done),
        _ => stop(m, Refusal::Failed(task)),
    }
}

/// The command after the reply to what it asked for.
pub open spec fn advance(m: Setup, reply: Reply) -> (Setup, Next) {
    match m.stage {
        Stage::Succeeded => (m, Next::Done),
        Stage::Stopped(refusal) => (m, Next::Stop(refusal)),
        Stage::Reverting { task, cause } => match reply {
            Reply::Done => undo(m, rank(part_of(task)) + 1, cause),
            _ => stop(m, Refusal::RevertFailed(task)),
        },
        Stage::Asked(task) => match task {
            Task::Inspect(part) => match reply {
                Reply::Found(found) => surveyed(m, part, found),
                _ => stop(m, Refusal::Failed(task)),
            },
            _ => match reply {
                Reply::Done => carried_out(m, task),
                _ => undo(m, 0, task),
            },
        },
    }
}

/// How many operations the command may still ask for, at most.
pub open spec fn left(m: Setup) -> nat {
    match m.stage {
        Stage::Succeeded => 0,
        Stage::Stopped(_) => 0,
        Stage::Reverting { task, cause } => (5 - rank(part_of(task))) as nat,
        Stage::Asked(task) => match task {
            Task::Inspect(Part::Root) => 18,
            Task::Inspect(Part::Conf) => 17,
            Task::Inspect(Part::Env) => 16,
            Task::Inspect(Part::EnvExample) => 15,
            Task::Inspect(Part::Revisions) => 14,
            Task::MakeDir(Part::Root) => 13,
            Task::MakeDir(Part::Revisions) => 12,
            Task::Create(Part::Conf) => 11,
            Task::Write(Part::Conf) => 10,
            Task::Create(Part::Env) => 9,
            Task::Write(Part::Env) => 8,
            Task::Create(Part::EnvExample) => 7,
            _ => 6,
        },
    }
}

/// What holds of the command wherever it stands: it has created a directory
/// only where it found none, and once it has set the project up, every part
/// is there.
pub open spec fn sound(m: Setup) -> bool {
    &&& m.created_root ==> m.root_missing
    &&& m.created_revisions ==> m.revisions_missing
    &&& match m.stage {
        Stage::Asked(Task::Inspect(_)) => {
            &&& !m.created_root
            &&& !m.created_revisions
            &&& !m.created_conf
            &&& !m.created_env
            &&& !m.created_env_ex
        },
        Stage::Asked(Task::MakeDir(Part::Root)) => {
            &&& m.root_missing
            &&& !m.created_root
            &&& !m.created_revisions
            &&& !m.created_conf
            &&& !m.created_env
            &&& !m.created_env_ex
        },
        Stage::Asked(Task::MakeDir(Part::Revisions)) => {
            &&& m.created_root == m.root_missing
            &&& m.revisions_missing
            &&& !m.created_revisions
            &&& !m.created_conf
            &&& !m.created_env
            &&& !m.created_env_ex
        },
        Stage::Asked(Task::Create(Part::Conf)) => {
            &&& dirs_there(m)
            &&& !m.created_conf
            &&& !m.created_env
            &&& !m.created_env_ex
        },
        Stage::Asked(Task::Write(Part::Conf)) | Stage::Asked(Task::Create(Part::Env)) => {
            &&& dirs_there(m)
            &&& m.created_conf
            &&& !m.created_env
            &&& !m.created_env_ex
        },
        Stage::Asked(Task::Write(Part::Env)) | Stage::Asked(Task::Create(Part::EnvExample)) => {
            &&& dirs_there(m)
            &&& m.created_conf
            &&& m.created_env
            &&& !m.created_env_ex
        },
        Stage::Asked(Task::Write(Part::EnvExample)) | Stage::Succeeded => {
            &&& dirs_there(m)
            &&& m.created_conf
            &&& m.created_env
            &&& m.created_env_ex
        },
        Stage::Asked(_) => false,
        Stage::Reverting { task, cause } => {
            &&& created(m, part_of(task))
            &&& task == removal(part_of(task))
        },
        Stage::Stopped(_) => true,
    }
}

/// Both directories are there: each was found, or has been created.
pub open spec fn dirs_there(m: Setup) -> bool {
    m.created_root == m.root_missing && m.created_revisions == m.revisions_missing
}

/// The operation that removes a part.
pub open spec fn removal(part: Part) -> Task {
    match part {
        Part::Root => Task::RemoveDir(Part::Root),
        Part::Revisions => Task::RemoveDir(Part::Revisions),
        p => Task::RemoveFile(p),
    }
}

/// The command after the replies `replies`, from its beginning.
pub open spec fn after(replies: Seq<Reply>) -> Setup
    decreases replies.len(),
{
    if replies.len() == 0 {
        fresh()
    } else {
        advance(after(replies.drop_last()), replies.last()).0
    }
}

/// One reply keeps the command sound.
pub proof fn advance_keeps_sound(m: Setup, reply: Reply)
    requires
        sound(m),
    ensures
        sound(advance(m, reply).0),
{
}

/// Whatever the file system answers, the command stays sound: it creates no
/// directory that it found, and it reports success only when all five parts
/// are there.
pub proof fn always_sound(replies: Seq<Reply>)
    ensures
        sound(after(replies)),
    decreases replies.len(),
{
    if replies.len() > 0 {
        always_sound(replies.drop_last());
        advance_keeps_sound(after(replies.drop_last()), replies.last());
    }
}

/// The command ends. While it asks for an operation, every reply brings it
/// nearer to its end, which it reaches after eighteen operations at most.
pub proof fn advance_comes_nearer(m: Setup, reply: Reply)
    ensures
        left(m) <= 18,
        left(m) > 0 ==> left(advance(m, reply).0) < left(m),
        left(m) == 0 ==> advance(m, reply).0 == m,
        advance(m, reply).1 is Do <==> left(advance(m, reply).0) > 0,
{
}

/// The command removes only what it has created, a file as a file and a
/// directory as a directory.
pub proof fn removes_what_it_created(m: Setup, reply: Reply)
    ensures
        match advance(m, reply).1 {
            Next::Do(Task::RemoveFile(part)) => created(m, part) && removal(part)
                == Task::RemoveFile(part),
            Next::Do(Task::RemoveDir(part)) => created(m, part) && removal(part)
                == Task::RemoveDir(part),
            _ => true,
        },
{
}

/// The part at a place in the order in which parts are taken back.
pub open spec fn part_at(place: int) -> Part {
    if place == 0 {
        Part::Conf
    } else if place == 1 {
        Part::Env
    } else if place == 2 {
        Part::EnvExample
    } else if place == 3 {
        Part::Revisions
    } else {
        Part::Root
    }
}

/// The removals that are due from the place `from` on: one for each part
/// that the command has created, in the order of their places.
pub open spec fn removals(m: Setup, from: int) -> Seq<Task>
    decreases 5 - from,
{
    if from < 0 || from >= 5 {
        Seq::empty()
    } else if created(m, part_at(from)) {
        seq![removal(part_at(from))] + removals(m, from + 1)
    } else {
        removals(m, from + 1)
    }
}

/// Taking back leaves out nothing and keeps the order. While removals are
/// due, the command asks for the first of them, and those after it are due
/// when it has gone through; when none is due, the command gives up with the
/// failure that made it take things back.
pub proof fn takes_back_in_order(m: Setup, from: int, cause: Task)
    requires
        0 <= from <= 5,
    ensures
        match undo(m, from, cause).1 {
            Next::Do(task) => {
                &&& removals(m, from).len() > 0
                &&& task == removals(m, from).first()
                &&& undo(m, from, cause).0 == (Setup {
                    stage: Stage::Reverting { task, cause },
                    ..m
                })
                &&& removals(m, rank(part_of(task)) + 1) == removals(m, from).drop_first()
            },
            next => {
                &&& removals(m, from).len() == 0
                &&& next == Next::Stop(Refusal::Failed(cause))
            },
        },
    decreases 5 - from,
{
    if from < 5 {
        takes_back_in_order(m, from + 1, cause);
        if created(m, part_at(from)) {
            assert(removals(m, from).drop_first() =~= removals(m, from + 1));
        }
    }
}

/// The five paths of a project, as they are shown.
#[derive(Debug, PartialEq, Eq)]
pub struct ProjectPaths {
    pub root_dir: String,
    pub revisions_dir: String,
    pub conf_file: String,
    pub env_file: String,
    pub env_ex_file: String,
}

/// The line that reports one path: the prefix, the path, and a mark where
/// the path was created.
pub open spec fn path_line(prefix: Seq<char>, path: Seq<char>, created: bool) -> Seq<char> {
    if created {
        prefix + path + " [created]"@
    } else {
        prefix + path
    }
}

/// The lines that report a project that was set up: a headline, then the
/// root, then what is inside it.
pub open spec fn report_lines(paths: ProjectPaths, m: Setup) -> Seq<Seq<char>> {
    seq![
        "A journey has begun"@,
        path_line("  "@, paths.root_dir@, m.created_root),
        path_line("  ├── "@, paths.revisions_dir@, m.created_revisions),
        path_line("  └── "@, paths.conf_file@, m.created_conf),
        path_line("  └── "@, paths.env_file@, m.created_env),
        path_line("  └── "@, paths.env_ex_file@, m.created_env_ex),
    ]
}

/// Renders the line for one path: `prefix`, then `path`, then ` [created]`
/// where `created` is true.
pub fn print_path(prefix: &str, path: &str, created: bool) -> (line: String)
    ensures
        line@ == path_line(prefix@, path@, created),
{
    let mut line = String::from_str(prefix);
    line.append(path);
    if created {
        line.append(" [created]");
    }
    line
}

/// Sets up relevant files and directories for a new revision timeline.
pub struct Begin {
    paths: ProjectPaths,
    created_revisions: bool,
    created_root: bool,
    created_conf: bool,
    created_env: bool,
    created_env_ex: bool,
    root_missing: bool,
    revisions_missing: bool,
    stage: Stage,
}

impl View for Begin {
    type V = Setup;

    closed spec fn view(&self) -> Setup {
        Setup {
            created_revisions: self.created_revisions,
            created_root: self.created_root,
            created_conf: self.created_conf,
            created_env: self.created_env,
            created_env_ex: self.created_env_ex,
            root_missing: self.root_missing,
            revisions_missing: self.revisions_missing,
            stage: self.stage,
        }
    }
}

impl Begin {
    /// The paths of the project that the command sets up.
    pub closed spec fn paths(&self) -> ProjectPaths {
        self.paths
    }

    /// The command for the project at `paths`, before anything was done. It
    /// begins by asking what is at the root.
    pub fn new(paths: ProjectPaths) -> (cmd: Begin)
        ensures
            cmd@ == fresh(),
            cmd.paths() == paths,
    {
        Begin {
            paths,
            created_revisions: false,
            created_root: false,
            created_conf: false,
            created_env: false,
            created_env_ex: false,
            root_missing: false,
            revisions_missing: false,
            stage: Stage::Asked(Task::Inspect(Part::Root)),
        }
    }

    /// What the command is waiting for: the operation it has asked for, or
    /// how it ended.
    pub fn pending(&self) -> (next: Next)
        ensures
            next == match self@.stage {
                Stage::Asked(task) => Next::Do(task),
                Stage::Reverting { task, cause } => Next::Do(task),
                Stage::Succeeded => Next::Done,
                Stage::Stopped(refusal) => Next::Stop(refusal),
            },
    {
        match self.stage {
            Stage::Asked(task) => Next::Do(task),
            Stage::Reverting { task, cause } => Next::Do(task),
            Stage::Succeeded => Next::Done,
            Stage::Stopped(refusal) => Next::Stop(refusal),
        }
    }

    /// Whether the command has created `part`.
    pub fn created(&self, part: Part) -> (r: bool)
        ensures
            r == created(self@, part),
    {
        match part {
            Part::Root => self.created_root,
            Part::Revisions => self.created_revisions,
            Part::Conf => self.created_conf,
            Part::Env => self.created_env,
            Part::EnvExample => self.created_env_ex,
        }
    }

    /// Asks for `task`.
    fn ask(&mut self, task: Task) -> (next: Next)
        ensures
            (final(self)@, next) == ask(old(self)@, task),
            final(self).paths() == old(self).paths(),
    {
        self.stage = Stage::Asked(task);
        Next::Do(task)
    }

    /// Gives up.
    fn stop(&mut self, refusal: Refusal) -> (next: Next)
        ensures
            (final(self)@, next) == stop(old(self)@, refusal),
            final(self).paths() == old(self).paths(),
    {
        self.stage = Stage::Stopped(refusal);
        Next::Stop(refusal)
    }

    /// Goes on after the survey: creates the project root directory if it
    /// was missing.
    fn create_root(&mut self) -> (next: Next)
        ensures
            (final(self)@, next) == after_survey(old(self)@),
            final(self).paths() == old(self).paths(),
    {
        if self.root_missing {
            self.ask(Task::MakeDir(Part::Root))
        } else {
            self.create_revisions()
        }
    }

    /// Goes on after the root: creates the revisions directory if it was
    /// missing, and the files after it.
    fn create_revisions(&mut self) -> (next: Next)
        ensures
            (final(self)@, next) == after_root(old(self)@),
            final(self).paths() == old(self).paths(),
    {
        if self.revisions_missing {
            self.ask(Task::MakeDir(Part::Revisions))
        } else {
            self.ask(Task::Create(Part::Conf))
        }
    }

    /// Removes the next file or directory that was created, from the place
    /// `from` on, and gives up with the failure of `cause` after the last.
    fn revert(&mut self, from: u8, cause: Task) -> (next: Next)
        ensures
            (final(self)@, next) == undo(old(self)@, from as int, cause),
            final(self).paths() == old(self).paths(),
    {
        let task = if from <= 0 && self.created_conf {
            Task::RemoveFile(Part::Conf)
        } else if from <= 1 && self.created_env {
            Task::RemoveFile(Part::Env)
        } else if from <= 2 && self.created_env_ex {
            Task::RemoveFile(Part::EnvExample)
        } else if from <= 3 && self.created_revisions {
            Task::RemoveDir(Part::Revisions)
        } else if from <= 4 && self.created_root {
            Task::RemoveDir(Part::Root)
        } else {
            return self.stop(Refusal::Failed(cause));
        };
        self.stage = Stage::Reverting { task, cause };
        Next::Do(task)
    }

    /// Takes note of what is at `part`.
    fn survey(&mut self, part: Part, found: Found) -> (next: Next)
        ensures
            (final(self)@, next) == surveyed(old(self)@, part, found),
            final(self).paths() == old(self).paths(),
    {
        match part {
            Part::Root => match found {
                Found::Nothing => {
                    self.root_missing = true;
                    self.ask(Task::Inspect(Part::Conf))
                },
                Found::File => self.stop(Refusal::NotDirectory(Part::Root)),
                _ => self.ask(Task::Inspect(Part::Conf)),
            },
            Part::Conf => match found {
                Found::Nothing => self.ask(Task::Inspect(Part::Env)),
                _ => self.stop(Refusal::AlreadyExists(Part::Conf)),
            },
            Part::Env => match found {
                Found::Nothing => self.ask(Task::Inspect(Part::EnvExample)),
                _ => self.stop(Refusal::AlreadyExists(Part::Env)),
            },
            Part::EnvExample => match found {
                Found::Nothing => self.ask(Task::Inspect(Part::Revisions)),
                _ => self.stop(Refusal::AlreadyExists(Part::EnvExample)),
            },
            Part::Revisions => match found {
                Found::Nothing => {
                    self.revisions_missing = true;
                    self.create_root()
                },
                Found::File => self.stop(Refusal::NotDirectory(Part::Revisions)),
                Found::EmptyDirectory => self.create_root(),
                Found::Directory => self.stop(Refusal::NotEmpty(Part::Revisions)),
            },
        }
    }

    /// Goes on after `task`, which creates, was carried out.
    fn proceed(&mut self, task: Task) -> (next: Next)
        ensures
            (final(self)@, next) == carried_out(old(self)@, task),
            final(self).paths() == old(self).paths(),
    {
        match task {
            Task::MakeDir(Part::Root) => {
                self.created_root = true;
                self.create_revisions()
            },
            Task::MakeDir(Part::Revisions) => {
                self.created_revisions = true;
                self.ask(Task::Create(Part::Conf))
            },
            Task::Create(Part::Conf) => {
                self.created_conf = true;
                self.ask(Task::Write(Part::Conf))
            },
            Task::Write(Part::Conf) => self.ask(Task::Create(Part::Env)),
            Task::Create(Part::Env) => {
                self.created_env = true;
                self.ask(Task::Write(Part::Env))
            },
            Task::Write(Part::Env) => self.ask(Task::Create(Part::EnvExample)),
            Task::Create(Part::EnvExample) => {
                self.created_env_ex = true;
                self.ask(Task::Write(Part::EnvExample))
            },
            Task::Write(Part::EnvExample) => {
                self.stage = Stage::Succeeded;
                Next::Done
            },
            _ => self.stop(Refusal::Failed(task)),
        }
    }

    /// Takes the reply to the operation that the command asked for last, and
    /// says what comes next.
    ///
    /// The command looks at the root, at the three files and at the directory
    /// of the revisions, and gives up where one of them is in the way. Then it
    /// creates the directories that were missing and the three files, each
    /// followed by its template. When one of these operations fails it removes
    /// what it has created, files first, and gives up with that failure; when
    /// a removal fails it gives up with that one. Once it has ended, it
    /// repeats how.
    pub fn execute(&mut self, reply: Reply) -> (next: Next)
        ensures
            (final(self)@, next) == advance(old(self)@, reply),
            final(self).paths() == old(self).paths(),
    {
        match self.stage {
            Stage::Succeeded => Next::Done,
            Stage::Stopped(refusal) => Next::Stop(refusal),
            Stage::Reverting { task, cause } => match reply {
                Reply::Done => {
                    let from: u8 = place(part(task)) + 1;
                    self.revert(from, cause)
                },
                _ => self.stop(Refusal::RevertFailed(task)),
            },
            Stage::Asked(task) => match task {
                Task::Inspect(part) => match reply {
                    Reply::Found(found) => self.survey(part, found),
                    _ => self.stop(Refusal::Failed(task)),
                },
                _ => match reply {
                    Reply::Done => self.proceed(task),
                    _ => self.revert(0, task),
                },
            },
        }
    }

    /// The lines that tell of the project that was set up, with a mark at
    /// each part that was created.
    pub fn report(&self) -> (lines: Vec<String>)
        ensures
            lines@.map_values(|l: String| l@) == report_lines(self.paths(), self@),
    {
        let mut lines: Vec<String> = Vec::new();
        lines.push(String::from_str("A journey has begun"));
        lines.push(print_path("  ", self.paths.root_dir.as_str(), self.created_root));
        lines.push(
            print_path("  ├── ", self.paths.revisions_dir.as_str(), self.created_revisions),
        );
        lines.push(print_path("  └── ", self.paths.conf_file.as_str(), self.created_conf));
        lines.push(print_path("  └── ", self.paths.env_file.as_str(), self.created_env));
        lines.push(
            print_path("  └── ", self.paths.env_ex_file.as_str(), self.created_env_ex),
        );
        assert(lines@.map_values(|l: String| l@) =~= report_lines(self.paths(), self@));
        lines
    }
}

/// The part that an operation is about.
pub fn part(task: Task) -> (p: Part)
    ensures
        p == part_of(task),
{
    match task {
        Task::Inspect(p) => p,
        Task::MakeDir(p) => p,
        Task::Create(p) => p,
        Task::Write(p) => p,
        Task::RemoveFile(p) => p,
        Task::RemoveDir(p) => p,
    }
}

/// The place of a part in the order in which parts are taken back.
pub fn place(part: Part) -> (r: u8)
    ensures
        r == rank(part),
{
    match part {
        Part::Conf => 0,
        Part::Env => 1,
        Part::EnvExample => 2,
        Part::Revisions => 3,
        Part::Root => 4,
    }
}

} // verus!
