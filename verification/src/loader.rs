//! Start-up, step by step: which file operation comes next, and which
//! settings result.
//!
//! The loader touches no file itself. It names the operation that is due (a
//! `Request`), is told how that operation went (an `Event`), and moves on.
//! The directory is created first; if that fails, the defaults are used and
//! the file is left alone. An existing file is read; where it cannot be read
//! or is no settings file, or where there is no file, the defaults are written
//! out and used.

use vstd::prelude::*;
use crate::config::{default_model, ConfigModel, ModConfig};
use crate::json::{json_parse, JsonTree};
use crate::schema::{
    config_of, config_of_text, flag_of, list_of, parse_config, render_config, rpps_of,
    text_of_config, FormatError,
};

verus! {

/// Why the settings file was not used.
#[derive(Debug, Clone, Copy, PartialEq, Eq)]
pub enum LoadError {
    /// The file could not be read.
    Unreadable,
    /// The file was read and is no settings file.
    Format(FormatError),
}

/// What the loader has to report about a step.
#[derive(Debug, Clone, Copy, PartialEq, Eq)]
pub enum Notice {
    /// Warning: the directory could not be created; the defaults are used.
    DirectoryFailed,
    /// The settings were taken from the file.
    Loaded,
    /// Warning: the file was not used; the defaults are used.
    LoadFailed(LoadError),
    /// The defaults were written to a new file.
    Created,
    /// Warning: the defaults could not be written; they are used all the same.
    SaveFailed,
}

/// How a file operation went.
#[derive(Debug, Clone, PartialEq, Eq)]
pub enum Event {
    /// The directory was created with its parents, or was there already
    /// (`true`), or could not be created (`false`).
    DirectoryCreated(bool),
    /// The file exists (`true`) or does not (`false`).
    FileProbed(bool),
    /// The text of the file, or `None` where it could not be read.
    FileRead(Option<String>),
    /// The text was written in full and flushed to storage (`true`), or not.
    FileWritten(bool),
}

/// The file operation that is due.
#[derive(Debug, Clone, PartialEq, Eq)]
pub enum Request {
    /// Create the directory and its parents.
    CreateDirectory,
    /// Find out whether the file exists.
    ProbeFile,
    /// Read the whole file as text.
    ReadFile,
    /// Replace the file by this text and flush it to storage.
    WriteFile(String),
    /// Nothing: the settings are ready.
    Finished,
}

/// Where start-up stands.
#[derive(Debug, Clone, PartialEq, Eq)]
pub enum Loader {
    /// The directory is being created.
    Directory,
    /// The file is being looked for.
    Probe,
    /// The file is being read.
    Read,
    /// The defaults are being written, as this text.
    Write(String),
    /// The settings are ready.
    Ready(ModConfig),
}

/// An event, with its text as characters.
pub enum EventModel {
    DirectoryCreated(bool),
    FileProbed(bool),
    FileRead(Option<Seq<char>>),
    FileWritten(bool),
}

/// A request, with its text as characters.
pub enum RequestModel {
    CreateDirectory,
    ProbeFile,
    ReadFile,
    WriteFile(Seq<char>),
    Finished,
}

/// A state of start-up, with what it holds as mathematical values.
pub enum LoaderModel {
    Directory,
    Probe,
    Read,
    Write(Seq<char>),
    Ready(ConfigModel),
}

impl View for Event {
    type V = EventModel;

    open spec fn view(&self) -> EventModel {
        match self {
            Event::DirectoryCreated(ok) => EventModel::DirectoryCreated(*ok),
            Event::FileProbed(exists) => EventModel::FileProbed(*exists),
            Event::FileRead(Some(text)) => EventModel::FileRead(Some(text@)),
            Event::FileRead(None) => EventModel::FileRead(None),
            Event::FileWritten(ok) => EventModel::FileWritten(*ok),
        }
    }
}

impl View for Request {
    type V = RequestModel;

    open spec fn view(&self) -> RequestModel {
        match self {
            Request::CreateDirectory => RequestModel::CreateDirectory,
            Request::ProbeFile => RequestModel::ProbeFile,
            Request::ReadFile => RequestModel::ReadFile,
            Request::WriteFile(text) => RequestModel::WriteFile(text@),
            Request::Finished => RequestModel::Finished,
        }
    }
}

impl View for Loader {
    type V = LoaderModel;

    open spec fn view(&self) -> LoaderModel {
        match self {
            Loader::Directory => LoaderModel::Directory,
            Loader::Probe => LoaderModel::Probe,
            Loader::Read => LoaderModel::Read,
            Loader::Write(text) => LoaderModel::Write(text@),
            Loader::Ready(config) => LoaderModel::Ready(config@),
        }
    }
}

/// The operation that is due in a state.
pub open spec fn request_model(state: LoaderModel) -> RequestModel {
    match state {
        LoaderModel::Directory => RequestModel::CreateDirectory,
        LoaderModel::Probe => RequestModel::ProbeFile,
        LoaderModel::Read => RequestModel::ReadFile,
        LoaderModel::Write(text) => RequestModel::WriteFile(text),
        LoaderModel::Ready(_) => RequestModel::Finished,
    }
}

/// Falling back on the defaults: they are written out where the JSON writer
/// gives their text, and used as they are where it does not.
pub open spec fn fallback_model() -> (LoaderModel, Seq<Notice>) {
    match text_of_config(default_model()) {
        Some(text) => (LoaderModel::Write(text), seq![]),
        None => (LoaderModel::Ready(default_model()), seq![Notice::SaveFailed]),
    }
}

/// The state after an event, and what there is to report. An event that does
/// not answer the request that is due changes nothing.
pub open spec fn step_model(state: LoaderModel, event: EventModel) -> (LoaderModel, Seq<Notice>) {
    match (state, event) {
        (LoaderModel::Directory, EventModel::DirectoryCreated(ok)) => if ok {
            (LoaderModel::Probe, seq![])
        } else {
            (LoaderModel::Ready(default_model()), seq![Notice::DirectoryFailed])
        },
        (LoaderModel::Probe, EventModel::FileProbed(exists)) => if exists {
            (LoaderModel::Read, seq![])
        } else {
            fallback_model()
        },
        (LoaderModel::Read, EventModel::FileRead(None)) => (
            fallback_model().0,
            seq![Notice::LoadFailed(LoadError::Unreadable)] + fallback_model().1,
        ),
        (LoaderModel::Read, EventModel::FileRead(Some(text))) => match config_of_text(text) {
            Ok(config) => (LoaderModel::Ready(config), seq![Notice::Loaded]),
            Err(e) => (
                fallback_model().0,
                seq![Notice::LoadFailed(LoadError::Format(e))] + fallback_model().1,
            ),
        },
        (LoaderModel::Write(_), EventModel::FileWritten(ok)) => (
            LoaderModel::Ready(default_model()),
            seq![if ok { Notice::Created } else { Notice::SaveFailed }],
        ),
        _ => (state, seq![]),
    }
}

/// Falls back on the defaults, after what `notices` already reports.
fn fallback(notices: Vec<Notice>) -> (moved: (Loader, Vec<Notice>))
    ensures
        moved.0@ == fallback_model().0,
        moved.1@ == notices@ + fallback_model().1,
{
    let mut notices = notices;
    let config = ModConfig::default();
    match render_config(&config) {
        Some(text) => {
            assert(notices@ + Seq::<Notice>::empty() =~= notices@);
            (Loader::Write(text), notices)
        },
        None => {
            let ghost before = notices@;
            notices.push(Notice::SaveFailed);
            assert(notices@ =~= before + seq![Notice::SaveFailed]);
            (Loader::Ready(config), notices)
        },
    }
}

impl Loader {
    /// Start-up begins with the directory.
    pub fn new() -> (loader: Loader)
        ensures
            loader@ == LoaderModel::Directory,
    {
        Loader::Directory
    }

    /// The file operation that is due.
    pub fn request(&self) -> (due: Request)
        ensures
            due@ == request_model(self@),
    {
        match self {
            Loader::Directory => Request::CreateDirectory,
            Loader::Probe => Request::ProbeFile,
            Loader::Read => Request::ReadFile,
            Loader::Write(text) => Request::WriteFile(text.clone()),
            Loader::Ready(_) => Request::Finished,
        }
    }

    /// Whether the settings are ready.
    pub fn is_ready(&self) -> (ready: bool)
        ensures
            ready == (self@ is Ready),
    {
        match self {
            Loader::Ready(_) => true,
            _ => false,
        }
    }

    /// Takes in how the operation that was due went.
    pub fn step(self, event: Event) -> (moved: (Loader, Vec<Notice>))
        ensures
            (moved.0@, moved.1@) == step_model(self@, event@),
    {
        let mut notices: Vec<Notice> = Vec::new();
        match self {
            Loader::Directory => match event {
                Event::DirectoryCreated(ok) => {
                    if ok {
                        (Loader::Probe, notices)
                    } else {
                        notices.push(Notice::DirectoryFailed);
                        (Loader::Ready(ModConfig::default()), notices)
                    }
                },
                _ => (Loader::Directory, notices),
            },
            Loader::Probe => match event {
                Event::FileProbed(exists) => {
                    if exists {
                        (Loader::Read, notices)
                    } else {
                        fallback(notices)
                    }
                },
                _ => (Loader::Probe, notices),
            },
            Loader::Read => match event {
                Event::FileRead(None) => {
                    notices.push(Notice::LoadFailed(LoadError::Unreadable));
                    fallback(notices)
                },
                Event::FileRead(Some(text)) => match parse_config(text.as_str()) {
                    Ok(config) => {
                        notices.push(Notice::Loaded);
                        (Loader::Ready(config), notices)
                    },
                    Err(e) => {
                        notices.push(Notice::LoadFailed(LoadError::Format(e)));
                        fallback(notices)
                    },
                },
                _ => (Loader::Read, notices),
            },
            Loader::Write(text) => match event {
                Event::FileWritten(ok) => {
                    notices.push(if ok { Notice::Created } else { Notice::SaveFailed });
                    (Loader::Ready(ModConfig::default()), notices)
                },
                _ => (Loader::Write(text), notices),
            },
            Loader::Ready(config) => (Loader::Ready(config), notices),
        }
    }
}

/// The state after an event.
pub open spec fn after(state: LoaderModel, event: EventModel) -> LoaderModel {
    step_model(state, event).0
}

/// What is reported about an event.
pub open spec fn reported(state: LoaderModel, event: EventModel) -> Seq<Notice> {
    step_model(state, event).1
}

/// The state in which an existing file is being read.
pub open spec fn reading() -> LoaderModel {
    after(
        after(LoaderModel::Directory, EventModel::DirectoryCreated(true)),
        EventModel::FileProbed(true),
    )
}

/// Once the settings are ready they stay as they are: no event changes them,
/// and none is reported.
pub proof fn ready_is_final(config: ConfigModel, event: EventModel)
    ensures
        step_model(LoaderModel::Ready(config), event) == (
            LoaderModel::Ready(config),
            Seq::<Notice>::empty(),
        ),
{
}

/// Where the directory cannot be created, start-up ends at once with the
/// defaults, with a warning, and without a file operation.
pub proof fn directory_failure_gives_defaults()
    ensures
        after(LoaderModel::Directory, EventModel::DirectoryCreated(false)) == LoaderModel::Ready(
            default_model(),
        ),
        reported(LoaderModel::Directory, EventModel::DirectoryCreated(false)) == seq![
            Notice::DirectoryFailed,
        ],
{
}

/// A file that holds a settings document is what start-up ends with: each
/// toggle has the value of the member of its name, and the overrides are the
/// items of `custom_rpp`, in order.
pub proof fn existing_file_is_adopted(text: Seq<char>, tree: JsonTree, config: ConfigModel)
    requires
        json_parse(text) == Some(tree),
        config_of(tree) == Some(config),
    ensures
        reading() == LoaderModel::Read,
        after(reading(), EventModel::FileRead(Some(text))) == LoaderModel::Ready(config),
        reported(reading(), EventModel::FileRead(Some(text))) == seq![Notice::Loaded],
        flag_of(tree, "Nohurtcam"@) == Some(config.no_hurt_cam),
        flag_of(tree, "Nofog"@) == Some(config.no_fog),
        flag_of(tree, "particles_disabler"@) == Some(config.particles_disabler),
        flag_of(tree, "java_clouds"@) == Some(config.java_clouds),
        flag_of(tree, "java_cubemap"@) == Some(config.java_cubemap),
        flag_of(tree, "classic_skins"@) == Some(config.classic_skins),
        list_of(tree, "custom_rpp"@) is Some,
        rpps_of(list_of(tree, "custom_rpp"@).unwrap()) == Some(config.custom_rpp),
{
}

/// Where there is no file, the defaults are written out as their settings
/// file, and start-up ends with the defaults whether or not the write
/// succeeds. Where the JSON writer gives no text, nothing is written and the
/// defaults are used.
pub proof fn missing_file_is_created(written: bool)
    ensures
        ({
            let probing = after(LoaderModel::Directory, EventModel::DirectoryCreated(true));
            let state = after(probing, EventModel::FileProbed(false));
            match text_of_config(default_model()) {
                Some(text) => {
                    &&& request_model(state) == RequestModel::WriteFile(text)
                    &&& after(state, EventModel::FileWritten(written)) == LoaderModel::Ready(
                        default_model(),
                    )
                    &&& reported(state, EventModel::FileWritten(written)) == seq![
                        if written { Notice::Created } else { Notice::SaveFailed },
                    ]
                },
                None => state == LoaderModel::Ready(default_model()),
            }
        }),
{
}

/// A file that cannot be read, or whose text is no settings document, is not
/// used: a warning says why, the defaults are written out in its place, and
/// start-up ends with the defaults.
pub proof fn bad_file_gives_defaults(contents: Option<Seq<char>>, written: bool)
    requires
        contents matches Some(text) ==> config_of_text(text) is Err,
    ensures
        ({
            let state = after(reading(), EventModel::FileRead(contents));
            let why = match contents {
                Some(text) => LoadError::Format(config_of_text(text)->Err_0),
                None => LoadError::Unreadable,
            };
            &&& reported(reading(), EventModel::FileRead(contents))[0] == Notice::LoadFailed(why)
            &&& match text_of_config(default_model()) {
                Some(text) => {
                    &&& request_model(state) == RequestModel::WriteFile(text)
                    &&& after(state, EventModel::FileWritten(written)) == LoaderModel::Ready(
                        default_model(),
                    )
                },
                None => state == LoaderModel::Ready(default_model()),
            }
        }),
{
}

/// What start-up finds on the disk.
pub struct Disk {
    /// Whether the directory can be created.
    pub directory: bool,
    /// `None` where there is no file; else its text, or `None` where it
    /// cannot be read.
    pub file: Option<Option<Seq<char>>>,
    /// Whether the file can be written.
    pub writable: bool,
}

/// How the operation that is due in `state` goes on `disk`. Where the
/// settings are ready nothing is due, and no event matters.
pub open spec fn answer(disk: Disk, state: LoaderModel) -> EventModel {
    match state {
        LoaderModel::Directory => EventModel::DirectoryCreated(disk.directory),
        LoaderModel::Probe => EventModel::FileProbed(disk.file is Some),
        LoaderModel::Read => EventModel::FileRead(
            match disk.file {
                Some(contents) => contents,
                None => None,
            },
        ),
        LoaderModel::Write(_) | LoaderModel::Ready(_) => EventModel::FileWritten(disk.writable),
    }
}

/// The state after the operation that is due has been done on `disk`.
pub open spec fn advance(disk: Disk, state: LoaderModel) -> LoaderModel {
    after(state, answer(disk, state))
}

/// The settings of a run that finds `disk`: those of the file where the
/// directory can be created and the file is there, can be read and is a
/// settings file; the defaults in every other case.
pub open spec fn settings_on(disk: Disk) -> ConfigModel {
    match disk.file {
        Some(Some(text)) => if disk.directory && config_of_text(text) is Ok {
            config_of_text(text)->Ok_0
        } else {
            default_model()
        },
        _ => default_model(),
    }
}

/// Start-up is over after at most four file operations, whatever it finds,
/// and ends with the settings that `settings_on` names.
pub proof fn startup_settles(disk: Disk)
    ensures
        advance(disk, advance(disk, advance(disk, advance(disk, LoaderModel::Directory))))
            == LoaderModel::Ready(settings_on(disk)),
{
}

} // verus!
