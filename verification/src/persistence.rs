//! Writing a file so that it holds either what it held before or what was to be written,
//! and nothing in between.

use crate::text;
use vstd::prelude::*;
use vstd::string::*;

verus! {

/// What came of reading a file, as values: its text, none where there is no such file, or
/// why it cannot be read.
pub open spec fn read_view(read: Result<Option<&str>, &str>) -> Result<Option<Seq<char>>, Seq<char>> {
    match read {
        Ok(Some(text)) => Ok(Some(text@)),
        Ok(None) => Ok(None),
        Err(error) => Err(error@),
    }
}

/// What is done next.
#[derive(Debug)]
pub enum WriteStep {
    CreateDirectory,
    CreateTemporary,
    Write,
    Sync,
    Replace,
    SyncDirectory,
    /// The temporary file is removed, whether or not that comes off, and the write has failed.
    RemoveTemporary(String),
    Done,
    Failed(String),
}

/// What is done next, as a value.
pub enum Step {
    CreateDirectory,
    CreateTemporary,
    Write,
    Sync,
    Replace,
    SyncDirectory,
    RemoveTemporary(Seq<char>),
    Done,
    Failed(Seq<char>),
}

impl View for WriteStep {
    type V = Step;

    open spec fn view(&self) -> Step {
        match self {
            WriteStep::CreateDirectory => Step::CreateDirectory,
            WriteStep::CreateTemporary => Step::CreateTemporary,
            WriteStep::Write => Step::Write,
            WriteStep::Sync => Step::Sync,
            WriteStep::Replace => Step::Replace,
            WriteStep::SyncDirectory => Step::SyncDirectory,
            WriteStep::RemoveTemporary(error) => Step::RemoveTemporary(error@),
            WriteStep::Done => Step::Done,
            WriteStep::Failed(error) => Step::Failed(error@),
        }
    }
}

/// A file that is being written.
pub struct AtomicWrite {
    pub path: String,
    pub parent: String,
    pub temporary: String,
    pub step: WriteStep,
}

/// A file that is being written, as values.
pub struct Write {
    pub path: Seq<char>,
    pub parent: Seq<char>,
    pub temporary: Seq<char>,
    pub step: Step,
}

impl View for AtomicWrite {
    type V = Write;

    open spec fn view(&self) -> Write {
        Write {
            path: self.path@,
            parent: self.parent@,
            temporary: self.temporary@,
            step: self.step@,
        }
    }
}

/// The name of the temporary file beside a file.
pub open spec fn temporary_name_text(file_name: Option<Seq<char>>, pid: u32) -> Seq<char> {
    "."@ + (match file_name {
        Some(name) => name,
        None => "state"@,
    }) + ".tmp-"@ + text::decimal(pid as nat)
}

pub fn temporary_name(file_name: Option<&str>, pid: u32) -> (name: String)
    ensures
        name@ == temporary_name_text(
            match file_name {
                Some(name) => Some(name@),
                None => None,
            },
            pid,
        ),
{
    let mut name = ".".to_owned();
    match file_name {
        Some(file_name) => name.append(file_name),
        None => name.append("state"),
    }
    name.append(".tmp-");
    text::push_decimal(&mut name, pid as u64);
    name
}

impl Write {
    /// What is said when a step fails.
    pub open spec fn error_text(self, error: Seq<char>) -> Seq<char> {
        match self.step {
            Step::CreateDirectory => "create persistence directory "@ + self.parent + ": "@ + error,
            Step::CreateTemporary => "create temporary file "@ + self.temporary + ": "@ + error,
            Step::Write => "write temporary file "@ + self.temporary + ": "@ + error,
            Step::Sync => "sync temporary file "@ + self.temporary + ": "@ + error,
            Step::Replace => "replace "@ + self.path + " with "@ + self.temporary + ": "@ + error,
            _ => "sync persistence directory "@ + self.parent + ": "@ + error,
        }
    }

    /// The step after one that came off, or failed with an error.
    pub open spec fn next(self, error: Option<Seq<char>>) -> Step {
        match (self.step, error) {
            (Step::RemoveTemporary(error), _) => Step::Failed(error),
            (Step::Done, _) => Step::Done,
            (Step::Failed(error), _) => Step::Failed(error),
            (Step::CreateDirectory, Some(error)) => Step::Failed(self.error_text(error)),
            (_, Some(error)) => Step::RemoveTemporary(self.error_text(error)),
            (Step::CreateDirectory, None) => Step::CreateTemporary,
            (Step::CreateTemporary, None) => Step::Write,
            (Step::Write, None) => Step::Sync,
            (Step::Sync, None) => Step::Replace,
            (Step::Replace, None) => Step::SyncDirectory,
            (Step::SyncDirectory, None) => Step::Done,
        }
    }

    pub open spec fn stepped(self, error: Option<Seq<char>>) -> Self {
        Write { step: self.next(error), ..self }
    }
}

impl AtomicWrite {
    /// Begins to write a file in the directory `parent`, by way of a temporary file; a file
    /// without a directory cannot be written.
    pub fn begin(path: &str, parent: Option<String>, temporary: String) -> (write: Result<Self, String>)
        ensures
            match parent {
                Some(parent) => write matches Ok(write) && write@ == (Write {
                    path: path@,
                    parent: parent@,
                    temporary: temporary@,
                    step: Step::CreateDirectory,
                }),
                None => write matches Err(error) && error@ == "persistence path has no parent: "@
                    + path@,
            },
    {
        match parent {
            Some(parent) => Ok(
                AtomicWrite {
                    path: path.to_owned(),
                    parent,
                    temporary,
                    step: WriteStep::CreateDirectory,
                },
            ),
            None => {
                let mut error = "persistence path has no parent: ".to_owned();
                error.append(path);
                Err(error)
            },
        }
    }

    fn error_message(&self, error: &str) -> (message: String)
        ensures
            message@ == self@.error_text(error@),
    {
        let mut message = String::new();
        assert(message@ =~= Seq::<char>::empty());
        match &self.step {
            WriteStep::CreateDirectory => {
                message.append("create persistence directory ");
                message.append(self.parent.as_str());
            },
            WriteStep::CreateTemporary => {
                message.append("create temporary file ");
                message.append(self.temporary.as_str());
            },
            WriteStep::Write => {
                message.append("write temporary file ");
                message.append(self.temporary.as_str());
            },
            WriteStep::Sync => {
                message.append("sync temporary file ");
                message.append(self.temporary.as_str());
            },
            WriteStep::Replace => {
                message.append("replace ");
                message.append(self.path.as_str());
                message.append(" with ");
                message.append(self.temporary.as_str());
            },
            _ => {
                message.append("sync persistence directory ");
                message.append(self.parent.as_str());
            },
        }
        message.append(": ");
        message.append(error);
        assert(message@ =~= self@.error_text(error@));
        message
    }

    /// Takes note of how a step came off, and goes on to the next.
    pub fn step_done(&mut self, error: Option<&str>)
        ensures
            final(self)@ == old(self)@.stepped(
                match error {
                    Some(error) => Some(error@),
                    None => None,
                },
            ),
    {
        let mut step = WriteStep::Done;
        let failure: Option<String> = match error {
            Some(error) => Some(self.error_message(error)),
            None => None,
        };
        std::mem::swap(&mut step, &mut self.step);
        self.step = match step {
            WriteStep::RemoveTemporary(error) => WriteStep::Failed(error),
            WriteStep::Done => WriteStep::Done,
            WriteStep::Failed(error) => WriteStep::Failed(error),
            WriteStep::CreateDirectory => match failure {
                Some(error) => WriteStep::Failed(error),
                None => WriteStep::CreateTemporary,
            },
            WriteStep::CreateTemporary => match failure {
                Some(error) => WriteStep::RemoveTemporary(error),
                None => WriteStep::Write,
            },
            WriteStep::Write => match failure {
                Some(error) => WriteStep::RemoveTemporary(error),
                None => WriteStep::Sync,
            },
            WriteStep::Sync => match failure {
                Some(error) => WriteStep::RemoveTemporary(error),
                None => WriteStep::Replace,
            },
            WriteStep::Replace => match failure {
                Some(error) => WriteStep::RemoveTemporary(error),
                None => WriteStep::SyncDirectory,
            },
            WriteStep::SyncDirectory => match failure {
                Some(error) => WriteStep::RemoveTemporary(error),
                None => WriteStep::Done,
            },
        };
    }
}

/// What the file and the temporary file hold.
pub struct Files {
    pub target: Option<Seq<u8>>,
    pub temporary: Option<Seq<u8>>,
}

/// Whether the files can be `after` once a step that came off, or not, was taken on `before`.
/// A step that fails may leave anything in the temporary file and nothing elsewhere.
pub open spec fn can_leave(step: Step, contents: Seq<u8>, done: bool, before: Files, after: Files) -> bool {
    match step {
        Step::CreateTemporary => after.target == before.target && (done ==> after.temporary == Some(
            Seq::<u8>::empty(),
        )),
        Step::Write => after.target == before.target && (done ==> after.temporary == Some(contents)),
        Step::Replace => if done {
            after.target == before.temporary && after.temporary is None
        } else {
            after == before
        },
        Step::RemoveTemporary(_) => after.target == before.target && (done ==> after.temporary is None),
        _ => after == before,
    }
}

/// What the files hold while they are being written: the file holds what it held, until it
/// is replaced by a temporary file that holds everything.
pub open spec fn is_sound(step: Step, contents: Seq<u8>, earlier: Option<Seq<u8>>, files: Files) -> bool {
    match step {
        Step::CreateDirectory | Step::CreateTemporary | Step::Write => files.target == earlier,
        Step::Sync | Step::Replace => files.target == earlier && files.temporary == Some(contents),
        Step::SyncDirectory | Step::Done => files.target == Some(contents) && files.temporary is None,
        Step::RemoveTemporary(_) | Step::Failed(_) => files.target == earlier || files.target == Some(
            contents,
        ),
    }
}

/// Whatever step fails, the file holds what it held or all of what was to be written; once
/// the write is done, it holds what was to be written and the temporary file is gone.
pub proof fn files_are_never_torn(
    write: Write,
    error: Option<Seq<char>>,
    contents: Seq<u8>,
    earlier: Option<Seq<u8>>,
    before: Files,
    after: Files,
)
    requires
        is_sound(write.step, contents, earlier, before),
        can_leave(write.step, contents, error is None, before, after),
    ensures
        is_sound(write.stepped(error).step, contents, earlier, after),
        after.target == earlier || after.target == Some(contents),
{
}

/// A file is replaced only once what is to take its place was written and synchronised, in a
/// file of its own; then the directory is synchronised, and that is all.
pub proof fn files_are_synchronised_before_they_replace(write: Write)
    ensures
        write.step is CreateDirectory ==> write.stepped(None).step is CreateTemporary,
        write.step is CreateTemporary ==> write.stepped(None).step is Write,
        write.step is Write ==> write.stepped(None).step is Sync,
        write.step is Sync ==> write.stepped(None).step is Replace,
        write.step is Replace ==> write.stepped(None).step is SyncDirectory,
        write.step is SyncDirectory ==> write.stepped(None).step is Done,
        write.step is Done ==> write.stepped(None).step is Done,
        write.stepped(None).path == write.path,
        write.stepped(None).temporary == write.temporary,
{
}

/// What fails leaves no file behind: once there may be one of its own, it is removed, and then
/// writing has failed, for the reason there was first.
pub proof fn failed_writes_are_cleared_away(write: Write, error: Seq<char>, other: Seq<char>)
    ensures
        write.step is CreateDirectory ==> write.stepped(Some(error)).step is Failed,
        write.step is CreateTemporary || write.step is Write || write.step is Sync
            || write.step is Replace || write.step is SyncDirectory ==> {
            let removing = write.stepped(Some(error));
            &&& removing.step is RemoveTemporary
            &&& removing.stepped(None).step is Failed
            &&& removing.step matches Step::RemoveTemporary(why) ==> removing.stepped(None).step
                == Step::Failed(why) && removing.stepped(Some(other)).step == Step::Failed(why)
        },
{
}

} // verus!
