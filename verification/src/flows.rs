//! The file-system commands of the application (reading, writing, backing up
//! and resetting the configuration, and installing a downloaded sidecar) as
//! machines from stage and reply to next stage and request. The caller
//! performs each request and hands back its outcome; the machine decides what
//! comes next and, at the end, what the command answers.

use crate::paths::{
    backup_dir, backup_dir_path, backup_file, backup_file_path, backups_dir, backups_dir_path,
    config_dir, config_dir_path, config_file, config_file_path, default_config,
    default_config_text, join, joined, lemma_backup_file_is_not_config_file, sidecar_dir,
    user_sidecar_dir,
};
use crate::platform::{asset_download_url, asset_name, download_url, platform_asset_name, TargetOs};
use crate::pathtext::{path_debug, path_debug_text};
use crate::stamp::{format_utc_stamp, utc_compact_stamp};
use vstd::prelude::*;

verus! {

/// Something the caller is asked to do.
#[derive(Debug)]
pub enum Request {
    /// Create this directory and any missing parent; answer `Done` or `Failed`.
    CreateDirAll(String),
    /// Say whether this path exists; answer `Found`.
    Exists(String),
    /// Read the file at this path as text; answer `Text`, or `Failed`.
    ReadToString(String),
    /// Write `contents` to the file at `path`; answer `Done` or `Failed`.
    WriteFile { path: String, contents: String },
    /// Copy the file `from` to `to`; answer `Done` or `Failed`.
    CopyFile { from: String, to: String },
    /// Read the clock; answer `Time` with the seconds since the Unix epoch.
    CurrentTime,
    /// Run `program` with `args` and wait for it; answer `Exited`, or
    /// `Failed` when it could not be started.
    Run { program: String, args: Vec<String> },
}

/// The outcome of a request.
#[derive(Debug)]
pub enum Reply {
    Done,
    /// The request failed; the text describes the error.
    Failed(String),
    Found(bool),
    /// The text read from a file.
    Text(String),
    Time(i64),
    /// The program ran; `status` describes how it exited.
    Exited { success: bool, status: String },
}

/// What a command machine asks for next.
#[derive(Debug)]
pub enum Next {
    Perform(Request),
    /// The command is over, with this answer.
    Finish(Result<String, String>),
}

/// A request, as texts.
pub enum RequestView {
    CreateDirAll(Seq<char>),
    Exists(Seq<char>),
    ReadToString(Seq<char>),
    WriteFile(Seq<char>, Seq<char>),
    CopyFile(Seq<char>, Seq<char>),
    CurrentTime,
    Run(Seq<char>, Seq<Seq<char>>),
}

/// A reply, as texts.
pub enum ReplyView {
    Done,
    Failed(Seq<char>),
    Found(bool),
    Text(Seq<char>),
    Time(i64),
    Exited(bool, Seq<char>),
}

/// What comes next, as texts.
pub enum NextView {
    Perform(RequestView),
    Finish(Result<Seq<char>, Seq<char>>),
}

/// The texts of a list of arguments.
pub open spec fn texts(args: Seq<String>) -> Seq<Seq<char>> {
    args.map_values(|a: String| a@)
}

impl View for Request {
    type V = RequestView;

    open spec fn view(&self) -> RequestView {
        match self {
            Request::CreateDirAll(p) => RequestView::CreateDirAll(p@),
            Request::Exists(p) => RequestView::Exists(p@),
            Request::ReadToString(p) => RequestView::ReadToString(p@),
            Request::WriteFile { path, contents } => RequestView::WriteFile(path@, contents@),
            Request::CopyFile { from, to } => RequestView::CopyFile(from@, to@),
            Request::CurrentTime => RequestView::CurrentTime,
            Request::Run { program, args } => RequestView::Run(program@, texts(args@)),
        }
    }
}

impl View for Reply {
    type V = ReplyView;

    open spec fn view(&self) -> ReplyView {
        match self {
            Reply::Done => ReplyView::Done,
            Reply::Failed(e) => ReplyView::Failed(e@),
            Reply::Found(b) => ReplyView::Found(*b),
            Reply::Text(t) => ReplyView::Text(t@),
            Reply::Time(t) => ReplyView::Time(*t),
            Reply::Exited { success, status } => ReplyView::Exited(*success, status@),
        }
    }
}

impl View for Next {
    type V = NextView;

    open spec fn view(&self) -> NextView {
        match self {
            Next::Perform(r) => NextView::Perform(r@),
            Next::Finish(Ok(t)) => NextView::Finish(Ok(t@)),
            Next::Finish(Err(e)) => NextView::Finish(Err(e@)),
        }
    }
}

/// A command's end with the error `prefix` followed by `detail`.
pub open spec fn fail_with(prefix: Seq<char>, detail: Seq<char>) -> NextView {
    NextView::Finish(Err(prefix + detail))
}

/// `a` followed by `b`.
pub fn concat(a: &str, b: &str) -> (t: String)
    ensures
        t@ == a@ + b@,
{
    let mut t = String::new();
    t.append(a);
    t.append(b);
    t
}

/// A copy of `a`.
pub fn owned(a: &str) -> (t: String)
    ensures
        t@ == a@,
{
    let mut t = String::new();
    t.append(a);
    t
}

fn finish_err(prefix: &str, detail: &str) -> (n: Next)
    ensures
        n@ == fail_with(prefix@, detail@),
{
    Next::Finish(Err(concat(prefix, detail)))
}

// ---------------------------------------------------------------------------
// Reading the configuration
// ---------------------------------------------------------------------------

/// Where the command that reads the configuration stands.
#[derive(Clone, Copy, PartialEq, Eq, Structural, Debug)]
pub enum ReadStage {
    Checking,
    Reading,
    Finished,
}

/// The command that reads the configuration below `home`: an empty object
/// when there is no configuration file, else the file's text.
pub struct ReadConfigFlow {
    pub os: TargetOs,
    pub home: String,
    pub stage: ReadStage,
}

/// Whether `stage` expects `reply`.
pub open spec fn read_expects(stage: ReadStage, reply: ReplyView) -> bool {
    match stage {
        ReadStage::Checking => reply is Found,
        ReadStage::Reading => reply is Text || reply is Failed,
        ReadStage::Finished => false,
    }
}

/// The next stage and what comes next, when `reply` comes in at `stage`.
pub open spec fn read_step(os: TargetOs, home: Seq<char>, stage: ReadStage, reply: ReplyView) -> (ReadStage, NextView) {
    match (stage, reply) {
        (ReadStage::Checking, ReplyView::Found(false)) => (
            ReadStage::Finished,
            NextView::Finish(Ok("{}"@)),
        ),
        (ReadStage::Checking, _) => (
            ReadStage::Reading,
            NextView::Perform(RequestView::ReadToString(config_file(os, home))),
        ),
        (ReadStage::Reading, ReplyView::Failed(e)) => (
            ReadStage::Finished,
            fail_with("Failed to read config: "@, e),
        ),
        (_, ReplyView::Text(t)) => (ReadStage::Finished, NextView::Finish(Ok(t))),
        (_, _) => (ReadStage::Finished, NextView::Finish(Ok("{}"@))),
    }
}

impl ReadConfigFlow {
    /// Whether the command's stage expects `reply`.
    pub fn expects(&self, reply: &Reply) -> (b: bool)
        ensures
            b == read_expects(self.stage, reply@),
    {
        match (self.stage, reply) {
            (ReadStage::Checking, Reply::Found(_)) => true,
            (ReadStage::Reading, Reply::Text(_)) => true,
            (ReadStage::Reading, Reply::Failed(_)) => true,
            _ => false,
        }
    }

    /// Starts the command: it first asks whether the configuration file exists.
    pub fn start(os: TargetOs, home: String) -> (r: (ReadConfigFlow, Next))
        ensures
            r.0.os == os,
            r.0.home@ == home@,
            r.0.stage == ReadStage::Checking,
            r.1@ == NextView::Perform(RequestView::Exists(config_file(os, home@))),
    {
        let path = config_file_path(os, home.as_str());
        (ReadConfigFlow { os, home, stage: ReadStage::Checking }, Next::Perform(Request::Exists(path)))
    }

    /// Takes in the outcome of the last request.
    pub fn advance(&mut self, reply: Reply) -> (n: Next)
        requires
            read_expects(old(self).stage, reply@),
        ensures
            final(self).os == old(self).os,
            final(self).home@ == old(self).home@,
            (final(self).stage, n@) == read_step(
                old(self).os,
                old(self).home@,
                old(self).stage,
                reply@,
            ),
    {
        let os = self.os;
        match (self.stage, reply) {
            (ReadStage::Checking, Reply::Found(false)) => {
                self.stage = ReadStage::Finished;
                Next::Finish(Ok(owned("{}")))
            },
            (ReadStage::Checking, _) => {
                self.stage = ReadStage::Reading;
                Next::Perform(Request::ReadToString(config_file_path(os, self.home.as_str())))
            },
            (ReadStage::Reading, Reply::Failed(e)) => {
                self.stage = ReadStage::Finished;
                finish_err("Failed to read config: ", e.as_str())
            },
            (_, Reply::Text(t)) => {
                self.stage = ReadStage::Finished;
                Next::Finish(Ok(t))
            },
            (_, _) => {
                self.stage = ReadStage::Finished;
                Next::Finish(Ok(owned("{}")))
            },
        }
    }
}

// ---------------------------------------------------------------------------
// Writing the configuration
// ---------------------------------------------------------------------------

/// Where the command that writes the configuration stands.
#[derive(Clone, Copy, PartialEq, Eq, Structural, Debug)]
pub enum WriteStage {
    CreatingDir,
    Writing,
    Finished,
}

/// The command that writes `content` as the configuration below `home`.
pub struct WriteConfigFlow {
    pub os: TargetOs,
    pub home: String,
    pub content: String,
    pub stage: WriteStage,
}

/// Whether `stage` expects `reply`.
pub open spec fn write_expects(stage: WriteStage, reply: ReplyView) -> bool {
    stage != WriteStage::Finished && (reply is Done || reply is Failed)
}

/// The next stage and what comes next, when `reply` comes in at `stage`.
pub open spec fn write_step(os: TargetOs, home: Seq<char>, content: Seq<char>, stage: WriteStage, reply: ReplyView) -> (WriteStage, NextView) {
    match (stage, reply) {
        (WriteStage::CreatingDir, ReplyView::Failed(e)) => (
            WriteStage::Finished,
            fail_with("Failed to create config dir: "@, e),
        ),
        (WriteStage::CreatingDir, _) => (
            WriteStage::Writing,
            NextView::Perform(RequestView::WriteFile(config_file(os, home), content)),
        ),
        (WriteStage::Writing, ReplyView::Failed(e)) => (
            WriteStage::Finished,
            fail_with("Failed to write config: "@, e),
        ),
        (_, _) => (WriteStage::Finished, NextView::Finish(Ok("ok"@))),
    }
}

impl WriteConfigFlow {
    /// Whether the command's stage expects `reply`.
    pub fn expects(&self, reply: &Reply) -> (b: bool)
        ensures
            b == write_expects(self.stage, reply@),
    {
        match (self.stage, reply) {
            (WriteStage::Finished, _) => false,
            (_, Reply::Done) => true,
            (_, Reply::Failed(_)) => true,
            _ => false,
        }
    }

    /// Starts the command: the configuration directory is created first.
    pub fn start(os: TargetOs, home: String, content: String) -> (r: (WriteConfigFlow, Next))
        ensures
            r.0.os == os,
            r.0.home@ == home@,
            r.0.content@ == content@,
            r.0.stage == WriteStage::CreatingDir,
            r.1@ == NextView::Perform(RequestView::CreateDirAll(config_dir(os, home@))),
    {
        let dir = config_dir_path(os, home.as_str());
        (
            WriteConfigFlow { os, home, content, stage: WriteStage::CreatingDir },
            Next::Perform(Request::CreateDirAll(dir)),
        )
    }

    /// Takes in the outcome of the last request.
    pub fn advance(&mut self, reply: Reply) -> (n: Next)
        requires
            write_expects(old(self).stage, reply@),
        ensures
            final(self).os == old(self).os,
            final(self).home@ == old(self).home@,
            final(self).content@ == old(self).content@,
            (final(self).stage, n@) == write_step(
                old(self).os,
                old(self).home@,
                old(self).content@,
                old(self).stage,
                reply@,
            ),
    {
        let os = self.os;
        match (self.stage, reply) {
            (WriteStage::CreatingDir, Reply::Failed(e)) => {
                self.stage = WriteStage::Finished;
                finish_err("Failed to create config dir: ", e.as_str())
            },
            (WriteStage::CreatingDir, _) => {
                self.stage = WriteStage::Writing;
                let path = config_file_path(os, self.home.as_str());
                let contents = owned(self.content.as_str());
                Next::Perform(Request::WriteFile { path, contents })
            },
            (WriteStage::Writing, Reply::Failed(e)) => {
                self.stage = WriteStage::Finished;
                finish_err("Failed to write config: ", e.as_str())
            },
            (_, _) => {
                self.stage = WriteStage::Finished;
                Next::Finish(Ok(owned("ok")))
            },
        }
    }
}


// ---------------------------------------------------------------------------
// Backing up and resetting the configuration
// ---------------------------------------------------------------------------

/// The seconds since the Unix epoch for which backups are named.
pub open spec fn stamp_in_range(secs: i64) -> bool {
    -8_000_000_000_000 <= secs <= 8_000_000_000_000
}

/// Where the command that backs up and resets the configuration stands.
#[derive(Clone, Copy, PartialEq, Eq, Structural, Debug)]
pub enum BackupStage {
    CreatingBackups,
    CheckingConfig,
    AwaitingTime,
    CreatingDestination,
    Copying,
    Resetting,
    Finished,
}

/// The command that copies the configuration below `home` into a new backup
/// directory named by the current time, then resets it to the default.
pub struct BackupFlow {
    pub os: TargetOs,
    pub home: String,
    /// The name of the backup directory, once the time is known.
    pub stamp: String,
    pub stage: BackupStage,
}

/// Whether `stage` expects `reply`.
pub open spec fn backup_expects(stage: BackupStage, reply: ReplyView) -> bool {
    match stage {
        BackupStage::CheckingConfig => reply is Found,
        BackupStage::AwaitingTime => reply matches ReplyView::Time(secs) && stamp_in_range(secs),
        BackupStage::Finished => false,
        _ => reply is Done || reply is Failed,
    }
}

/// The next stage, backup name and what comes next, when `reply` comes in at
/// `stage`. On success the command answers `Backed up to` and the quoted
/// path of the backup copy.
pub open spec fn backup_step(os: TargetOs, home: Seq<char>, stage: BackupStage, stamp: Seq<char>, reply: ReplyView) -> (BackupStage, Seq<char>, NextView) {
    match (stage, reply) {
        (BackupStage::CreatingBackups, ReplyView::Failed(e)) => (
            BackupStage::Finished,
            stamp,
            fail_with("Failed to create backups dir: "@, e),
        ),
        (BackupStage::CreatingBackups, _) => (
            BackupStage::CheckingConfig,
            stamp,
            NextView::Perform(RequestView::Exists(config_file(os, home))),
        ),
        (BackupStage::CheckingConfig, ReplyView::Found(true)) => (
            BackupStage::AwaitingTime,
            stamp,
            NextView::Perform(RequestView::CurrentTime),
        ),
        (BackupStage::CheckingConfig, _) => (
            BackupStage::Finished,
            stamp,
            NextView::Finish(Err("No config to backup"@)),
        ),
        (BackupStage::AwaitingTime, ReplyView::Time(secs)) => (
            BackupStage::CreatingDestination,
            utc_compact_stamp(secs),
            NextView::Perform(RequestView::CreateDirAll(backup_dir(os, home, utc_compact_stamp(secs)))),
        ),
        (BackupStage::CreatingDestination, ReplyView::Failed(e)) => (
            BackupStage::Finished,
            stamp,
            fail_with("Failed to create dst backup dir: "@, e),
        ),
        (BackupStage::CreatingDestination, _) => (
            BackupStage::Copying,
            stamp,
            NextView::Perform(RequestView::CopyFile(config_file(os, home), backup_file(os, home, stamp))),
        ),
        (BackupStage::Copying, ReplyView::Failed(e)) => (
            BackupStage::Finished,
            stamp,
            fail_with("Failed to copy config to backup: "@, e),
        ),
        (BackupStage::Copying, _) => (
            BackupStage::Resetting,
            stamp,
            NextView::Perform(RequestView::WriteFile(config_file(os, home), default_config())),
        ),
        (BackupStage::Resetting, ReplyView::Failed(e)) => (
            BackupStage::Finished,
            stamp,
            fail_with("Failed to write default config: "@, e),
        ),
        (_, _) => (
            BackupStage::Finished,
            stamp,
            NextView::Finish(Ok("Backed up to "@ + path_debug_text(backup_file(os, home, stamp)))),
        ),
    }
}

impl BackupFlow {
    /// Whether the command's stage expects `reply`.
    pub fn expects(&self, reply: &Reply) -> (b: bool)
        ensures
            b == backup_expects(self.stage, reply@),
    {
        match (self.stage, reply) {
            (BackupStage::CheckingConfig, Reply::Found(_)) => true,
            (BackupStage::CheckingConfig, _) => false,
            (BackupStage::AwaitingTime, Reply::Time(secs)) => -8_000_000_000_000 <= *secs && *secs
                <= 8_000_000_000_000,
            (BackupStage::AwaitingTime, _) => false,
            (BackupStage::Finished, _) => false,
            (_, Reply::Done) => true,
            (_, Reply::Failed(_)) => true,
            _ => false,
        }
    }

    /// Starts the command: the backups directory is created first.
    pub fn start(os: TargetOs, home: String) -> (r: (BackupFlow, Next))
        ensures
            r.0.os == os,
            r.0.home@ == home@,
            r.0.stage == BackupStage::CreatingBackups,
            r.1@ == NextView::Perform(RequestView::CreateDirAll(backups_dir(os, home@))),
    {
        let dir = backups_dir_path(os, home.as_str());
        (
            BackupFlow { os, home, stamp: String::new(), stage: BackupStage::CreatingBackups },
            Next::Perform(Request::CreateDirAll(dir)),
        )
    }

    /// Takes in the outcome of the last request.
    pub fn advance(&mut self, reply: Reply) -> (n: Next)
        requires
            backup_expects(old(self).stage, reply@),
        ensures
            final(self).os == old(self).os,
            final(self).home@ == old(self).home@,
            (final(self).stage, final(self).stamp@, n@) == backup_step(
                old(self).os,
                old(self).home@,
                old(self).stage,
                old(self).stamp@,
                reply@,
            ),
    {
        let os = self.os;
        match (self.stage, reply) {
            (BackupStage::CreatingBackups, Reply::Failed(e)) => {
                self.stage = BackupStage::Finished;
                finish_err("Failed to create backups dir: ", e.as_str())
            },
            (BackupStage::CreatingBackups, _) => {
                self.stage = BackupStage::CheckingConfig;
                Next::Perform(Request::Exists(config_file_path(os, self.home.as_str())))
            },
            (BackupStage::CheckingConfig, Reply::Found(true)) => {
                self.stage = BackupStage::AwaitingTime;
                Next::Perform(Request::CurrentTime)
            },
            (BackupStage::CheckingConfig, _) => {
                self.stage = BackupStage::Finished;
                Next::Finish(Err(owned("No config to backup")))
            },
            (BackupStage::AwaitingTime, Reply::Time(secs)) => {
                let stamp = format_utc_stamp(secs).unwrap();
                self.stamp = stamp;
                self.stage = BackupStage::CreatingDestination;
                Next::Perform(
                    Request::CreateDirAll(backup_dir_path(os, self.home.as_str(), self.stamp.as_str())),
                )
            },
            (BackupStage::CreatingDestination, Reply::Failed(e)) => {
                self.stage = BackupStage::Finished;
                finish_err("Failed to create dst backup dir: ", e.as_str())
            },
            (BackupStage::CreatingDestination, _) => {
                self.stage = BackupStage::Copying;
                Next::Perform(
                    Request::CopyFile {
                        from: config_file_path(os, self.home.as_str()),
                        to: backup_file_path(os, self.home.as_str(), self.stamp.as_str()),
                    },
                )
            },
            (BackupStage::Copying, Reply::Failed(e)) => {
                self.stage = BackupStage::Finished;
                finish_err("Failed to copy config to backup: ", e.as_str())
            },
            (BackupStage::Copying, _) => {
                self.stage = BackupStage::Resetting;
                Next::Perform(
                    Request::WriteFile {
                        path: config_file_path(os, self.home.as_str()),
                        contents: owned(default_config_text()),
                    },
                )
            },
            (BackupStage::Resetting, Reply::Failed(e)) => {
                self.stage = BackupStage::Finished;
                finish_err("Failed to write default config: ", e.as_str())
            },
            (_, _) => {
                self.stage = BackupStage::Finished;
                let dst = backup_file_path(os, self.home.as_str(), self.stamp.as_str());
                let quoted = path_debug(dst.as_str());
                Next::Finish(Ok(concat("Backed up to ", quoted.as_str())))
            },
        }
    }
}

/// The configuration is reset only after it has been copied: the request to
/// overwrite the configuration file comes only as the step that takes in the
/// successful copy into the backup.
pub proof fn lemma_reset_only_after_copy(os: TargetOs, home: Seq<char>, stage: BackupStage, stamp: Seq<char>, reply: ReplyView)
    requires
        backup_expects(stage, reply),
        backup_step(os, home, stage, stamp, reply).2 matches NextView::Perform(RequestView::WriteFile(path, _)),
    ensures
        stage == BackupStage::Copying,
        reply == ReplyView::Done,
{
}

/// The backup copy goes into the directory created for this backup, and it is
/// a copy of the configuration file.
pub proof fn lemma_copy_targets_new_backup(os: TargetOs, home: Seq<char>, stage: BackupStage, stamp: Seq<char>, reply: ReplyView)
    requires
        backup_expects(stage, reply),
        backup_step(os, home, stage, stamp, reply).2 matches NextView::Perform(RequestView::CopyFile(_, _)),
    ensures
        stage == BackupStage::CreatingDestination,
        backup_step(os, home, stage, stamp, reply).2 == NextView::Perform(
            RequestView::CopyFile(config_file(os, home), joined(os, backup_dir(os, home, stamp), "opencode.jsonc"@)),
        ),
{
}

/// The rank of a backup stage; every step moves to a higher one, so the command
/// ends after at most six requests.
pub open spec fn backup_rank(stage: BackupStage) -> int {
    match stage {
        BackupStage::CreatingBackups => 0,
        BackupStage::CheckingConfig => 1,
        BackupStage::AwaitingTime => 2,
        BackupStage::CreatingDestination => 3,
        BackupStage::Copying => 4,
        BackupStage::Resetting => 5,
        BackupStage::Finished => 6,
    }
}

/// Every step of the backup command moves it forward.
pub proof fn lemma_backup_moves_forward(os: TargetOs, home: Seq<char>, stage: BackupStage, stamp: Seq<char>, reply: ReplyView)
    requires
        backup_expects(stage, reply),
    ensures
        backup_rank(backup_step(os, home, stage, stamp, reply).0) > backup_rank(stage),
        backup_step(os, home, stage, stamp, reply).0 == BackupStage::Finished
            <==> backup_step(os, home, stage, stamp, reply).2 is Finish,
{
}


// ---------------------------------------------------------------------------
// Downloading and installing a sidecar build
// ---------------------------------------------------------------------------

/// Where the downloaded release asset is saved.
pub open spec fn asset_dest(home: Seq<char>, os: TargetOs) -> Seq<char> {
    joined(os, sidecar_dir(os, home), asset_name(os))
}

/// Where a zip archive is expanded.
pub open spec fn extract_dir(os: TargetOs, home: Seq<char>) -> Seq<char> {
    joined(os, sidecar_dir(os, home), "extract"@)
}

/// The download command's arguments.
pub open spec fn curl_args(home: Seq<char>, os: TargetOs) -> Seq<Seq<char>> {
    seq!["-L"@, "-o"@, asset_dest(home, os), download_url(asset_name(os))]
}

/// The PowerShell command that expands the zip archive.
pub open spec fn expand_command(home: Seq<char>, os: TargetOs) -> Seq<char> {
    "Expand-Archive -Path '"@ + asset_dest(home, os) + "' -DestinationPath '"@ + extract_dir(os, home)
        + "' -Force"@
}

/// The arguments that unpack the tar archive into the sidecar directory.
pub open spec fn tar_args(home: Seq<char>, os: TargetOs) -> Seq<Seq<char>> {
    seq!["-xzf"@, asset_dest(home, os), "-C"@, sidecar_dir(os, home)]
}

/// Where the update stands.
#[derive(Clone, Copy, PartialEq, Eq, Structural, Debug)]
pub enum UpdateStage {
    CreatingDir,
    Downloading,
    CreatingExtractDir,
    Expanding,
    CopyingExe,
    Extracting,
    Finished,
}

/// The command that downloads the newest sidecar build for `os` and installs
/// it below `home`.
pub struct UpdateFlow {
    pub home: String,
    pub os: TargetOs,
    pub stage: UpdateStage,
}

/// Whether `stage` expects `reply`.
pub open spec fn update_expects(stage: UpdateStage, reply: ReplyView) -> bool {
    match stage {
        UpdateStage::Downloading | UpdateStage::Expanding | UpdateStage::Extracting => reply is Exited
            || reply is Failed,
        UpdateStage::Finished => false,
        _ => reply is Done || reply is Failed,
    }
}

/// The answer of a successful update.
pub open spec fn installed_message(os: TargetOs) -> Seq<char> {
    "Downloaded and installed "@ + asset_name(os)
}

/// The next stage and what comes next, when `reply` comes in at `stage`.
pub open spec fn update_step(home: Seq<char>, os: TargetOs, stage: UpdateStage, reply: ReplyView) -> (UpdateStage, NextView) {
    match (stage, reply) {
        (UpdateStage::CreatingDir, ReplyView::Failed(e)) => (
            UpdateStage::Finished,
            fail_with("Failed to create sidecar dir: "@, e),
        ),
        (UpdateStage::CreatingDir, _) => (
            UpdateStage::Downloading,
            NextView::Perform(RequestView::Run("curl"@, curl_args(home, os))),
        ),
        (UpdateStage::Downloading, ReplyView::Failed(e)) => (
            UpdateStage::Finished,
            fail_with("Failed to run curl: "@, e),
        ),
        (UpdateStage::Downloading, ReplyView::Exited(false, status)) => (
            UpdateStage::Finished,
            fail_with("Download failed with status: "@, status),
        ),
        (UpdateStage::Downloading, _) => if os == TargetOs::Windows {
            (
                UpdateStage::CreatingExtractDir,
                NextView::Perform(RequestView::CreateDirAll(extract_dir(os, home))),
            )
        } else {
            (
                UpdateStage::Extracting,
                NextView::Perform(RequestView::Run("tar"@, tar_args(home, os))),
            )
        },
        (UpdateStage::CreatingExtractDir, _) => (
            UpdateStage::Expanding,
            NextView::Perform(
                RequestView::Run("powershell"@, seq!["-Command"@, expand_command(home, os)]),
            ),
        ),
        (UpdateStage::Expanding, ReplyView::Failed(e)) => (
            UpdateStage::Finished,
            fail_with("Failed to run powershell expand: "@, e),
        ),
        (UpdateStage::Expanding, ReplyView::Exited(false, _)) => (
            UpdateStage::Finished,
            NextView::Finish(Err("Failed to extract archive"@)),
        ),
        (UpdateStage::Expanding, _) => (
            UpdateStage::CopyingExe,
            NextView::Perform(
                RequestView::CopyFile(
                    joined(os, extract_dir(os, home), "opencode.exe"@),
                    joined(os, sidecar_dir(os, home), "opencode.exe"@),
                ),
            ),
        ),
        (UpdateStage::CopyingExe, ReplyView::Failed(e)) => (
            UpdateStage::Finished,
            fail_with("Failed to copy exe: "@, e),
        ),
        (UpdateStage::Extracting, ReplyView::Failed(e)) => (
            UpdateStage::Finished,
            fail_with("Failed to run tar: "@, e),
        ),
        (UpdateStage::Extracting, ReplyView::Exited(false, _)) => (
            UpdateStage::Finished,
            NextView::Finish(Err("Failed to extract tar.gz"@)),
        ),
        (_, _) => (UpdateStage::Finished, NextView::Finish(Ok(installed_message(os)))),
    }
}

fn asset_dest_path(home: &str, os: TargetOs) -> (p: String)
    ensures
        p@ == asset_dest(home@, os),
{
    let dir = user_sidecar_dir(os, home);
    join(os, dir.as_str(), platform_asset_name(os))
}

fn extract_dir_path(os: TargetOs, home: &str) -> (p: String)
    ensures
        p@ == extract_dir(os, home@),
{
    let dir = user_sidecar_dir(os, home);
    join(os, dir.as_str(), "extract")
}

fn run_request(program: &str, args: Vec<String>) -> (n: Next)
    ensures
        n@ == NextView::Perform(RequestView::Run(program@, texts(args@))),
{
    Next::Perform(Request::Run { program: owned(program), args })
}

impl UpdateFlow {
    /// Whether the update's stage expects `reply`.
    pub fn expects(&self, reply: &Reply) -> (b: bool)
        ensures
            b == update_expects(self.stage, reply@),
    {
        match (self.stage, reply) {
            (UpdateStage::Finished, _) => false,
            (UpdateStage::Downloading, Reply::Exited { .. }) => true,
            (UpdateStage::Expanding, Reply::Exited { .. }) => true,
            (UpdateStage::Extracting, Reply::Exited { .. }) => true,
            (_, Reply::Failed(_)) => true,
            (UpdateStage::Downloading, _) => false,
            (UpdateStage::Expanding, _) => false,
            (UpdateStage::Extracting, _) => false,
            (_, Reply::Done) => true,
            _ => false,
        }
    }

    /// Starts the update: the sidecar directory is created first.
    pub fn start(os: TargetOs, home: String) -> (r: (UpdateFlow, Next))
        ensures
            r.0.home@ == home@,
            r.0.os == os,
            r.0.stage == UpdateStage::CreatingDir,
            r.1@ == NextView::Perform(RequestView::CreateDirAll(sidecar_dir(os, home@))),
    {
        let dir = user_sidecar_dir(os, home.as_str());
        (UpdateFlow { home, os, stage: UpdateStage::CreatingDir }, Next::Perform(Request::CreateDirAll(dir)))
    }

    /// Takes in the outcome of the last request.
    pub fn advance(&mut self, reply: Reply) -> (n: Next)
        requires
            update_expects(old(self).stage, reply@),
        ensures
            final(self).home@ == old(self).home@,
            final(self).os == old(self).os,
            (final(self).stage, n@) == update_step(
                old(self).home@,
                old(self).os,
                old(self).stage,
                reply@,
            ),
    {
        let home = self.home.as_str();
        let os = self.os;
        match (self.stage, reply) {
            (UpdateStage::CreatingDir, Reply::Failed(e)) => {
                self.stage = UpdateStage::Finished;
                finish_err("Failed to create sidecar dir: ", e.as_str())
            },
            (UpdateStage::CreatingDir, _) => {
                let mut args: Vec<String> = Vec::new();
                args.push(owned("-L"));
                args.push(owned("-o"));
                args.push(asset_dest_path(home, os));
                args.push(asset_download_url(platform_asset_name(os)));
                assert(texts(args@) =~= curl_args(home@, os));
                self.stage = UpdateStage::Downloading;
                run_request("curl", args)
            },
            (UpdateStage::Downloading, Reply::Failed(e)) => {
                self.stage = UpdateStage::Finished;
                finish_err("Failed to run curl: ", e.as_str())
            },
            (UpdateStage::Downloading, Reply::Exited { success: false, status }) => {
                self.stage = UpdateStage::Finished;
                finish_err("Download failed with status: ", status.as_str())
            },
            (UpdateStage::Downloading, _) => {
                if os == TargetOs::Windows {
                    self.stage = UpdateStage::CreatingExtractDir;
                    Next::Perform(Request::CreateDirAll(extract_dir_path(os, home)))
                } else {
                    let mut args: Vec<String> = Vec::new();
                    args.push(owned("-xzf"));
                    args.push(asset_dest_path(home, os));
                    args.push(owned("-C"));
                    args.push(user_sidecar_dir(os, home));
                    assert(texts(args@) =~= tar_args(home@, os));
                    self.stage = UpdateStage::Extracting;
                    run_request("tar", args)
                }
            },
            (UpdateStage::CreatingExtractDir, _) => {
                let dest = asset_dest_path(home, os);
                let extract = extract_dir_path(os, home);
                let mut command = owned("Expand-Archive -Path '");
                command.append(dest.as_str());
                command.append("' -DestinationPath '");
                command.append(extract.as_str());
                command.append("' -Force");
                let mut args: Vec<String> = Vec::new();
                args.push(owned("-Command"));
                args.push(command);
                assert(texts(args@) =~= seq!["-Command"@, expand_command(home@, os)]);
                self.stage = UpdateStage::Expanding;
                run_request("powershell", args)
            },
            (UpdateStage::Expanding, Reply::Failed(e)) => {
                self.stage = UpdateStage::Finished;
                finish_err("Failed to run powershell expand: ", e.as_str())
            },
            (UpdateStage::Expanding, Reply::Exited { success: false, .. }) => {
                self.stage = UpdateStage::Finished;
                Next::Finish(Err(owned("Failed to extract archive")))
            },
            (UpdateStage::Expanding, _) => {
                let extract = extract_dir_path(os, home);
                let dir = user_sidecar_dir(os, home);
                let from = join(os, extract.as_str(), "opencode.exe");
                let to = join(os, dir.as_str(), "opencode.exe");
                self.stage = UpdateStage::CopyingExe;
                Next::Perform(Request::CopyFile { from, to })
            },
            (UpdateStage::CopyingExe, Reply::Failed(e)) => {
                self.stage = UpdateStage::Finished;
                finish_err("Failed to copy exe: ", e.as_str())
            },
            (UpdateStage::Extracting, Reply::Failed(e)) => {
                self.stage = UpdateStage::Finished;
                finish_err("Failed to run tar: ", e.as_str())
            },
            (UpdateStage::Extracting, Reply::Exited { success: false, .. }) => {
                self.stage = UpdateStage::Finished;
                Next::Finish(Err(owned("Failed to extract tar.gz")))
            },
            (_, _) => {
                self.stage = UpdateStage::Finished;
                Next::Finish(Ok(concat("Downloaded and installed ", platform_asset_name(os))))
            },
        }
    }
}

/// The rank of an update stage; every step moves to a higher one, so the
/// update ends after at most five requests.
pub open spec fn update_rank(stage: UpdateStage) -> int {
    match stage {
        UpdateStage::CreatingDir => 0,
        UpdateStage::Downloading => 1,
        UpdateStage::CreatingExtractDir => 2,
        UpdateStage::Expanding => 3,
        UpdateStage::CopyingExe => 4,
        UpdateStage::Extracting => 4,
        UpdateStage::Finished => 5,
    }
}

/// Every step of the update moves it forward, and it finishes exactly when it
/// reaches its last stage.
pub proof fn lemma_update_moves_forward(home: Seq<char>, os: TargetOs, stage: UpdateStage, reply: ReplyView)
    requires
        update_expects(stage, reply),
    ensures
        update_rank(update_step(home, os, stage, reply).0) > update_rank(stage),
        update_step(home, os, stage, reply).0 == UpdateStage::Finished
            <==> update_step(home, os, stage, reply).1 is Finish,
{
}

/// The stages an update for `os` can be in: the zip stages only on Windows,
/// the tar stage only elsewhere.
pub open spec fn update_reachable(os: TargetOs, stage: UpdateStage) -> bool {
    match stage {
        UpdateStage::CreatingExtractDir | UpdateStage::Expanding | UpdateStage::CopyingExe => os
            == TargetOs::Windows,
        UpdateStage::Extracting => os != TargetOs::Windows,
        _ => true,
    }
}

/// Every step keeps the update among the stages it can be in.
pub proof fn lemma_update_stays_reachable(home: Seq<char>, os: TargetOs, stage: UpdateStage, reply: ReplyView)
    requires
        update_reachable(os, stage),
        update_expects(stage, reply),
    ensures
        update_reachable(os, update_step(home, os, stage, reply).0),
{
}

/// An update reports success only after the download succeeded and the archive
/// was unpacked: from the tar step on systems other than Windows, from the
/// copy of the unpacked executable on Windows.
pub proof fn lemma_update_success_after_unpack(home: Seq<char>, os: TargetOs, stage: UpdateStage, reply: ReplyView)
    requires
        update_reachable(os, stage),
        update_expects(stage, reply),
        update_step(home, os, stage, reply).1 matches NextView::Finish(Ok(_)),
    ensures
        os == TargetOs::Windows ==> stage == UpdateStage::CopyingExe && reply == ReplyView::Done,
        os != TargetOs::Windows ==> stage == UpdateStage::Extracting && reply is Exited,
        update_step(home, os, stage, reply).1 == NextView::Finish(Ok(installed_message(os))),
{
}


/// The rank of a write stage; every step moves to a higher one.
pub open spec fn write_rank(stage: WriteStage) -> int {
    match stage {
        WriteStage::CreatingDir => 0,
        WriteStage::Writing => 1,
        WriteStage::Finished => 2,
    }
}

/// Every step of the write command moves it forward; it writes exactly the
/// given text, to the configuration file, and only once its directory exists.
pub proof fn lemma_write_writes_content(os: TargetOs, home: Seq<char>, content: Seq<char>, stage: WriteStage, reply: ReplyView)
    requires
        write_expects(stage, reply),
    ensures
        write_rank(write_step(os, home, content, stage, reply).0) > write_rank(stage),
        write_step(os, home, content, stage, reply).1 matches NextView::Perform(RequestView::WriteFile(p, c))
            ==> p == config_file(os, home) && c == content && stage == WriteStage::CreatingDir && reply
            == ReplyView::Done,
{
}

/// The commands agree on the configuration file: the write command writes the
/// file that the backup command copies and resets, and the backup copy lies
/// in the backup's own directory.
pub proof fn lemma_commands_share_config_file(os: TargetOs, home: Seq<char>, content: Seq<char>, stamp: Seq<char>)
    ensures
        write_step(os, home, content, WriteStage::CreatingDir, ReplyView::Done).1 == NextView::Perform(
            RequestView::WriteFile(config_file(os, home), content),
        ),
        backup_step(os, home, BackupStage::CreatingBackups, stamp, ReplyView::Done).2 == NextView::Perform(
            RequestView::Exists(config_file(os, home)),
        ),
        backup_step(os, home, BackupStage::CreatingDestination, stamp, ReplyView::Done).2
            == NextView::Perform(RequestView::CopyFile(config_file(os, home), backup_file(os, home, stamp))),
        backup_step(os, home, BackupStage::Copying, stamp, ReplyView::Done).2 == NextView::Perform(
            RequestView::WriteFile(config_file(os, home), default_config()),
        ),
        backup_file(os, home, stamp) == joined(os, backup_dir(os, home, stamp), "opencode.jsonc"@),
{
}

/// Every failure of a request that the backup command depends on ends it with
/// an error that carries the failure's own description at its end.
pub proof fn lemma_backup_reports_failures(os: TargetOs, home: Seq<char>, stage: BackupStage, stamp: Seq<char>, e: Seq<char>)
    requires
        backup_expects(stage, ReplyView::Failed(e)),
    ensures
        backup_step(os, home, stage, stamp, ReplyView::Failed(e)).2 matches NextView::Finish(Err(m)) && m.len()
            >= e.len() && m.subrange(m.len() - e.len(), m.len() as int) == e,
{
    let m = match backup_step(os, home, stage, stamp, ReplyView::Failed(e)).2 {
        NextView::Finish(Err(m)) => m,
        _ => e,
    };
    assert(m.subrange(m.len() - e.len(), m.len() as int) =~= e);
}


/// Once the time is known, the backup command creates the directory named by
/// that time below the backups directory, and the copy that follows goes into
/// exactly that directory: the directory it asks for is the parent of the
/// copy's destination.
pub proof fn lemma_backup_creates_copy_parent(os: TargetOs, home: Seq<char>, stamp: Seq<char>, secs: i64)
    requires
        stamp_in_range(secs),
    ensures
        backup_step(os, home, BackupStage::AwaitingTime, stamp, ReplyView::Time(secs)).0
            == BackupStage::CreatingDestination,
        backup_step(os, home, BackupStage::AwaitingTime, stamp, ReplyView::Time(secs)).1
            == utc_compact_stamp(secs),
        backup_step(os, home, BackupStage::AwaitingTime, stamp, ReplyView::Time(secs)).2
            == NextView::Perform(
            RequestView::CreateDirAll(joined(os, backups_dir(os, home), utc_compact_stamp(secs))),
        ),
        backup_step(
            os,
            home,
            BackupStage::CreatingDestination,
            utc_compact_stamp(secs),
            ReplyView::Done,
        ).2 == NextView::Perform(
            RequestView::CopyFile(
                config_file(os, home),
                joined(
                    os,
                    joined(os, backups_dir(os, home), utc_compact_stamp(secs)),
                    "opencode.jsonc"@,
                ),
            ),
        ),
{
}

/// The download fetches the release asset for the running system, saves it
/// under that asset's name in the sidecar directory, the archive that is
/// unpacked is that file, and the success answer names that same asset.
pub proof fn lemma_download_matches_installed_asset(home: Seq<char>, os: TargetOs)
    ensures
        update_step(home, os, UpdateStage::CreatingDir, ReplyView::Done).1 == NextView::Perform(
            RequestView::Run(
                "curl"@,
                seq![
                    "-L"@,
                    "-o"@,
                    joined(os, sidecar_dir(os, home), asset_name(os)),
                    "https://github.com/mwyant/opencode/releases/latest/download/"@ + asset_name(os),
                ],
            ),
        ),
        tar_args(home, os)[1] == joined(os, sidecar_dir(os, home), asset_name(os)),
        expand_command(home, os) == "Expand-Archive -Path '"@ + joined(
            os,
            sidecar_dir(os, home),
            asset_name(os),
        ) + "' -DestinationPath '"@ + extract_dir(os, home) + "' -Force"@,
        installed_message(os) == "Downloaded and installed "@ + asset_name(os),
{
    assert(curl_args(home, os) =~= seq![
        "-L"@,
        "-o"@,
        joined(os, sidecar_dir(os, home), asset_name(os)),
        "https://github.com/mwyant/opencode/releases/latest/download/"@ + asset_name(os),
    ]);
}

/// The release asset of each system: a universal zip for macOS, a 64-bit zip
/// for Windows, and a gzipped tar for Linux and the rest.
pub proof fn lemma_asset_per_system()
    ensures
        asset_name(TargetOs::MacOs) == "opencode-macos-universal.zip"@,
        asset_name(TargetOs::Windows) == "opencode-windows-x64.zip"@,
        asset_name(TargetOs::Other) == "opencode-linux-x64.tar.gz"@,
        asset_name(TargetOs::MacOs) != asset_name(TargetOs::Other),
        asset_name(TargetOs::MacOs) != asset_name(TargetOs::Windows),
        asset_name(TargetOs::Windows) != asset_name(TargetOs::Other),
{
    reveal_strlit("opencode-macos-universal.zip");
    reveal_strlit("opencode-windows-x64.zip");
    reveal_strlit("opencode-linux-x64.tar.gz");
    assert("opencode-macos-universal.zip"@[9] != "opencode-linux-x64.tar.gz"@[9]);
    assert("opencode-macos-universal.zip"@[9] != "opencode-windows-x64.zip"@[9]);
    assert("opencode-windows-x64.zip"@[9] != "opencode-linux-x64.tar.gz"@[9]);
}

/// Every failure of a request that an update depends on (all but the creation
/// of the directory a zip is expanded into, whose failure the update passes
/// over) ends it with an error that carries the failure's description at its
/// end.
pub proof fn lemma_update_reports_failures(home: Seq<char>, os: TargetOs, stage: UpdateStage, e: Seq<char>)
    requires
        update_expects(stage, ReplyView::Failed(e)),
        stage != UpdateStage::CreatingExtractDir,
    ensures
        update_step(home, os, stage, ReplyView::Failed(e)).1 matches NextView::Finish(Err(m))
            && e.is_suffix_of(m),
{
    let m = match update_step(home, os, stage, ReplyView::Failed(e)).1 {
        NextView::Finish(Err(m)) => m,
        _ => e,
    };
    assert(m.subrange(m.len() - e.len(), m.len() as int) =~= e);
}

/// A failed write of the configuration ends the write command with an error
/// that carries the failure's description at its end, and so does a failed
/// creation of its directory; the command answers `ok` only when the write
/// itself was answered `Done`.
pub proof fn lemma_write_reports_failures(os: TargetOs, home: Seq<char>, content: Seq<char>, stage: WriteStage, e: Seq<char>)
    requires
        write_expects(stage, ReplyView::Failed(e)),
    ensures
        write_step(os, home, content, stage, ReplyView::Failed(e)).1 matches NextView::Finish(Err(m))
            && e.is_suffix_of(m),
        stage == WriteStage::Writing ==> write_step(os, home, content, stage, ReplyView::Failed(e)).1
            == NextView::Finish(Err("Failed to write config: "@ + e)),
{
    let m = match write_step(os, home, content, stage, ReplyView::Failed(e)).1 {
        NextView::Finish(Err(m)) => m,
        _ => e,
    };
    assert(m.subrange(m.len() - e.len(), m.len() as int) =~= e);
}

/// The write command succeeds only as the step that takes in a successful
/// write of the configuration file, and then answers `ok`.
pub proof fn lemma_write_ok_only_after_write(os: TargetOs, home: Seq<char>, content: Seq<char>, stage: WriteStage, reply: ReplyView)
    requires
        write_expects(stage, reply),
        write_step(os, home, content, stage, reply).1 is Finish,
        write_step(os, home, content, stage, reply).1->Finish_0 is Ok,
    ensures
        stage == WriteStage::Writing,
        reply == ReplyView::Done,
        write_step(os, home, content, stage, reply).1 == NextView::Finish(Ok("ok"@)),
{
}

/// A failed read of the configuration ends the read command with an error that
/// carries the failure's description at its end; it answers text only when
/// there is no configuration (the empty object) or with the very text read.
pub proof fn lemma_read_answers(os: TargetOs, home: Seq<char>, stage: ReadStage, reply: ReplyView)
    requires
        read_expects(stage, reply),
    ensures
        reply matches ReplyView::Failed(e) ==> read_step(os, home, stage, reply).1 == NextView::Finish(
            Err("Failed to read config: "@ + e),
        ),
        reply matches ReplyView::Text(t) ==> read_step(os, home, stage, reply).1 == NextView::Finish(
            Ok(t),
        ),
        read_step(os, home, stage, reply).1 is Finish && read_step(os, home, stage, reply).1->Finish_0
            is Ok ==> {
            ||| stage == ReadStage::Checking && reply == ReplyView::Found(false)
                && read_step(os, home, stage, reply).1 == NextView::Finish(Ok("{}"@))
            ||| stage == ReadStage::Reading && reply == ReplyView::Text(
                read_step(os, home, stage, reply).1->Finish_0->Ok_0,
            )
        },
        reply == ReplyView::Found(true) ==> read_step(os, home, stage, reply).1 == NextView::Perform(
            RequestView::ReadToString(config_file(os, home)),
        ),
{
}

// ---------------------------------------------------------------------------
// The configuration commands run against a model file system
// ---------------------------------------------------------------------------

/// The files of a model file system: each file's path mapped to its text.
pub type Files = Map<Seq<char>, Seq<char>>;

/// How a model file system answers `req` when its files are `files` and its
/// clock reads `now`: directories can always be created, writes always succeed,
/// and reading or copying a file that does not exist fails.
pub open spec fn model_reply(files: Files, now: i64, req: RequestView) -> (Files, ReplyView) {
    match req {
        RequestView::CreateDirAll(_) => (files, ReplyView::Done),
        RequestView::Exists(p) => (files, ReplyView::Found(files.contains_key(p))),
        RequestView::ReadToString(p) => if files.contains_key(p) {
            (files, ReplyView::Text(files[p]))
        } else {
            (files, ReplyView::Failed("not found"@))
        },
        RequestView::WriteFile(p, c) => (files.insert(p, c), ReplyView::Done),
        RequestView::CopyFile(from, to) => if files.contains_key(from) {
            (files.insert(to, files[from]), ReplyView::Done)
        } else {
            (files, ReplyView::Failed("not found"@))
        },
        RequestView::CurrentTime => (files, ReplyView::Time(now)),
        RequestView::Run(_, _) => (files, ReplyView::Exited(true, Seq::empty())),
    }
}

/// The files and the answer (if it comes within `fuel` requests) of the read
/// command, from `stage` with `pending` next.
pub open spec fn run_read(os: TargetOs, home: Seq<char>, stage: ReadStage, pending: NextView, files: Files, fuel: nat) -> (Files, Option<Result<Seq<char>, Seq<char>>>)
    decreases fuel,
{
    match pending {
        NextView::Finish(r) => (files, Some(r)),
        NextView::Perform(req) => if fuel == 0 {
            (files, None)
        } else {
            let (files2, reply) = model_reply(files, 0, req);
            if read_expects(stage, reply) {
                let (stage2, next) = read_step(os, home, stage, reply);
                run_read(os, home, stage2, next, files2, (fuel - 1) as nat)
            } else {
                (files2, None)
            }
        },
    }
}

/// The files and the answer of the write command.
pub open spec fn run_write(os: TargetOs, home: Seq<char>, content: Seq<char>, stage: WriteStage, pending: NextView, files: Files, fuel: nat) -> (Files, Option<Result<Seq<char>, Seq<char>>>)
    decreases fuel,
{
    match pending {
        NextView::Finish(r) => (files, Some(r)),
        NextView::Perform(req) => if fuel == 0 {
            (files, None)
        } else {
            let (files2, reply) = model_reply(files, 0, req);
            if write_expects(stage, reply) {
                let (stage2, next) = write_step(os, home, content, stage, reply);
                run_write(os, home, content, stage2, next, files2, (fuel - 1) as nat)
            } else {
                (files2, None)
            }
        },
    }
}

/// The files and the answer of the backup command, with the clock at `now`.
pub open spec fn run_backup(os: TargetOs, home: Seq<char>, stage: BackupStage, stamp: Seq<char>, pending: NextView, files: Files, now: i64, fuel: nat) -> (Files, Option<Result<Seq<char>, Seq<char>>>)
    decreases fuel,
{
    match pending {
        NextView::Finish(r) => (files, Some(r)),
        NextView::Perform(req) => if fuel == 0 {
            (files, None)
        } else {
            let (files2, reply) = model_reply(files, now, req);
            if backup_expects(stage, reply) {
                let (stage2, stamp2, next) = backup_step(os, home, stage, stamp, reply);
                run_backup(os, home, stage2, stamp2, next, files2, now, (fuel - 1) as nat)
            } else {
                (files2, None)
            }
        },
    }
}

/// The read command, as started by `ReadConfigFlow::start`, on a model file system.
pub open spec fn read_command(os: TargetOs, home: Seq<char>, files: Files) -> (Files, Option<Result<Seq<char>, Seq<char>>>) {
    run_read(
        os,
        home,
        ReadStage::Checking,
        NextView::Perform(RequestView::Exists(config_file(os, home))),
        files,
        2,
    )
}

/// The write command, as started by `WriteConfigFlow::start`, on a model file system.
pub open spec fn write_command(os: TargetOs, home: Seq<char>, content: Seq<char>, files: Files) -> (Files, Option<Result<Seq<char>, Seq<char>>>) {
    run_write(
        os,
        home,
        content,
        WriteStage::CreatingDir,
        NextView::Perform(RequestView::CreateDirAll(config_dir(os, home))),
        files,
        2,
    )
}

/// The backup command, as started by `BackupFlow::start`, on a model file system.
pub open spec fn backup_command(os: TargetOs, home: Seq<char>, now: i64, files: Files) -> (Files, Option<Result<Seq<char>, Seq<char>>>) {
    run_backup(
        os,
        home,
        BackupStage::CreatingBackups,
        Seq::empty(),
        NextView::Perform(RequestView::CreateDirAll(backups_dir(os, home))),
        files,
        now,
        6,
    )
}

/// Writing the configuration stores exactly the given text as the configuration
/// file and answers `ok`; writing the same text again answers `ok` and changes
/// nothing more.
pub proof fn lemma_write_stores_content(os: TargetOs, home: Seq<char>, content: Seq<char>, files: Files)
    ensures
        write_command(os, home, content, files) == (files.insert(config_file(os, home), content), Some(
            Ok::<Seq<char>, Seq<char>>("ok"@),
        )),
        write_command(os, home, content, write_command(os, home, content, files).0)
            == write_command(os, home, content, files),
{
    reveal_with_fuel(run_write, 3);
    let f1 = files.insert(config_file(os, home), content);
    assert(f1.insert(config_file(os, home), content) =~= f1);
}

/// A read answers what the last write wrote.
pub proof fn lemma_read_after_write(os: TargetOs, home: Seq<char>, content: Seq<char>, files: Files)
    ensures
        read_command(os, home, write_command(os, home, content, files).0).1 == Some(
            Ok::<Seq<char>, Seq<char>>(content),
        ),
{
    lemma_write_stores_content(os, home, content, files);
    reveal_with_fuel(run_read, 3);
}

/// A read with no configuration file answers an empty object.
pub proof fn lemma_read_without_config(os: TargetOs, home: Seq<char>, files: Files)
    requires
        !files.contains_key(config_file(os, home)),
    ensures
        read_command(os, home, files) == (files, Some(Ok::<Seq<char>, Seq<char>>("{}"@))),
{
    reveal_with_fuel(run_read, 3);
}

/// A backup succeeds exactly when there is a configuration file; then the
/// backup copy named by the time holds the configuration as it was, the answer
/// names that copy, and the configuration is reset to the default, so a read
/// afterwards answers the default configuration.
pub proof fn lemma_read_after_backup(os: TargetOs, home: Seq<char>, now: i64, files: Files)
    requires
        stamp_in_range(now),
    ensures
        backup_command(os, home, now, files).1 matches Some(Ok(_)) <==> files.contains_key(
            config_file(os, home),
        ),
        backup_command(os, home, now, files).1 matches Some(Ok(_)) ==> read_command(
            os,
            home,
            backup_command(os, home, now, files).0,
        ).1 == Some(Ok::<Seq<char>, Seq<char>>(default_config())),
        backup_command(os, home, now, files).1 matches Some(Ok(_)) ==> backup_command(
            os,
            home,
            now,
            files,
        ).0[backup_file(os, home, utc_compact_stamp(now))] == files[config_file(os, home)],
        backup_command(os, home, now, files).1 matches Some(Ok(_)) ==> backup_command(
            os,
            home,
            now,
            files,
        ).1 == Some(
            Ok::<Seq<char>, Seq<char>>(
                "Backed up to "@ + path_debug_text(backup_file(os, home, utc_compact_stamp(now))),
            ),
        ),
{
    lemma_backup_file_is_not_config_file(os, home, utc_compact_stamp(now));
    reveal_with_fuel(run_backup, 7);
    reveal_with_fuel(run_read, 3);
}

} // verus!
