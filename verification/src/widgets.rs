//! State models of the front-end widgets: the labelled information
//! rows and the log-collection dialog. The widgets' rendering lives
//! with the toolkit outside the library; these models carry the
//! decisions.

use vstd::prelude::*;

verus! {

/// One labelled information row: a fixed description and a value
/// that updates follow.
#[derive(Debug, Default)]
pub struct InfoLabelModel {
    pub description: String,
    pub value: String,
}

/// An update to an information row.
#[derive(Debug)]
pub enum InfoLabelEvent {
    SetLabel(String),
}

impl InfoLabelModel {
    /// A fresh row: the given description, no value yet.
    pub fn new(description: String) -> (r: InfoLabelModel)
        ensures
            r.description == description,
            r.value@ == Seq::<char>::empty(),
    {
        InfoLabelModel { description, value: String::new() }
    }

    /// Applies an update: the value is replaced, the description
    /// never changes.
    pub fn update(&mut self, event: InfoLabelEvent)
        ensures
            final(self).description == old(self).description,
            match event {
                InfoLabelEvent::SetLabel(v) => final(self).value == v,
            },
    {
        match event {
            InfoLabelEvent::SetLabel(value) => {
                self.value = value;
            },
        }
    }
}

/// The state of the log-collection dialog: whether it is still open,
/// and the archive path it can reveal once collection finished.
#[derive(Debug, Default)]
pub struct LogModel {
    pub dialog_open: bool,
    pub folder: Option<String>,
}

/// An event reaching the log-collection dialog. A finished collection
/// carries the archive path, or a message describing the failure.
pub enum LogEvent {
    Close,
    GeneratedLogs(Result<String, String>),
    ShowInFolder,
}

impl LogModel {
    /// A fresh dialog: open, with no archive to reveal yet.
    pub fn new() -> (r: LogModel)
        ensures
            r.dialog_open,
            r.folder is None,
    {
        LogModel { dialog_open: true, folder: None }
    }

    /// Applies one event. A successful collection stores the archive
    /// path and keeps the dialog open; a failed one closes the
    /// dialog; closing closes it; asking to show the archive hands
    /// the stored path back for the surrounding shell to reveal, and
    /// closes the dialog.
    pub fn update(&mut self, event: LogEvent) -> (reveal_path: Option<String>)
        ensures
            match event {
                LogEvent::GeneratedLogs(res) => match res {
                    Ok(archive) => final(self).dialog_open == old(self).dialog_open
                        && final(self).folder == Some(archive)
                        && reveal_path is None,
                    Err(_) => !final(self).dialog_open
                        && final(self).folder == old(self).folder
                        && reveal_path is None,
                },
                LogEvent::Close => !final(self).dialog_open
                    && final(self).folder == old(self).folder
                    && reveal_path is None,
                LogEvent::ShowInFolder => !final(self).dialog_open
                    && final(self).folder is None
                    && reveal_path == old(self).folder,
            },
    {
        match event {
            LogEvent::GeneratedLogs(res) => match res {
                Ok(archive) => {
                    self.folder = Some(archive);
                    None
                },
                Err(_) => {
                    self.dialog_open = false;
                    None
                },
            },
            LogEvent::Close => {
                self.dialog_open = false;
                None
            },
            LogEvent::ShowInFolder => {
                let f = self.folder.take();
                self.dialog_open = false;
                f
            },
        }
    }
}

} // verus!
