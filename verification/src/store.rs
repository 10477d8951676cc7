//! The instance store: one record per file in the instances directory, the
//! file named after the record's identifier.
//!
//! The store decides and the caller acts. To save, the caller carries out a
//! `SavePlan`; to load, list or remove, it reads or deletes the files that
//! this module names. What happened comes back as a `SaveOutcome`,
//! `LoadOutcome`, `Listing` or `RemoveOutcome`, and the store says what that
//! means. Nothing is locked: of two writers to one identifier the last wins.

use vstd::prelude::*;
use vstd::string::*;
use crate::error::{outcome_view, viewed, BedrockError, ErrorView};
use crate::paths::{has_json_extension, has_json_extension_spec, record_file, record_file_spec};
use crate::records::{BedrockInstance, InstanceView};
use crate::text::join2;

verus! {

/// What to do to save a record: create `directory` if it is absent, then
/// write the record to `file`, over whatever is there.
#[derive(Debug, PartialEq, Eq)]
pub struct SavePlan {
    pub directory: String,
    pub file: String,
    pub record: BedrockInstance,
}

/// A `SavePlan` as plain mathematical values.
pub struct SavePlanView {
    pub directory: Seq<char>,
    pub file: Seq<char>,
    pub record: InstanceView,
}

impl View for SavePlan {
    type V = SavePlanView;

    open spec fn view(&self) -> SavePlanView {
        SavePlanView { directory: self.directory@, file: self.file@, record: self.record@ }
    }
}

/// How carrying out a `SavePlan` ended.
#[derive(Debug, PartialEq, Eq)]
pub enum SaveOutcome {
    /// The directory could not be created; the text says why.
    DirectoryFailed(String),
    /// The record could not be put into its stored form; the text says why.
    SerializeFailed(String),
    /// The file could not be written; the text says why.
    WriteFailed(String),
    /// The file holds the record.
    Saved,
}

/// A `SaveOutcome` as plain mathematical values.
pub enum SaveOutcomeView {
    DirectoryFailed(Seq<char>),
    SerializeFailed(Seq<char>),
    WriteFailed(Seq<char>),
    Saved,
}

impl View for SaveOutcome {
    type V = SaveOutcomeView;

    open spec fn view(&self) -> SaveOutcomeView {
        match self {
            SaveOutcome::DirectoryFailed(cause) => SaveOutcomeView::DirectoryFailed(cause@),
            SaveOutcome::SerializeFailed(cause) => SaveOutcomeView::SerializeFailed(cause@),
            SaveOutcome::WriteFailed(cause) => SaveOutcomeView::WriteFailed(cause@),
            SaveOutcome::Saved => SaveOutcomeView::Saved,
        }
    }
}

/// What reading the file of one identifier gave.
#[derive(Debug, PartialEq, Eq)]
pub enum LoadOutcome {
    /// The file could not be read; the text says why.
    Unreadable(String),
    /// The file was read and holds no record; the text says why.
    Malformed(String),
    /// The file holds this record.
    Loaded(BedrockInstance),
}

/// A `LoadOutcome` as plain mathematical values.
pub enum LoadOutcomeView {
    Unreadable(Seq<char>),
    Malformed(Seq<char>),
    Loaded(InstanceView),
}

impl View for LoadOutcome {
    type V = LoadOutcomeView;

    open spec fn view(&self) -> LoadOutcomeView {
        match self {
            LoadOutcome::Unreadable(cause) => LoadOutcomeView::Unreadable(cause@),
            LoadOutcome::Malformed(cause) => LoadOutcomeView::Malformed(cause@),
            LoadOutcome::Loaded(record) => LoadOutcomeView::Loaded(record@),
        }
    }
}

/// One file of the instances directory: its name, and the record it holds
/// if it was read and holds one.
#[derive(Debug, PartialEq, Eq)]
pub struct StoredFile {
    pub file_name: String,
    pub record: Option<BedrockInstance>,
}

/// A `StoredFile` as plain mathematical values.
pub struct StoredFileView {
    pub file_name: Seq<char>,
    pub record: Option<InstanceView>,
}

impl View for StoredFile {
    type V = StoredFileView;

    open spec fn view(&self) -> StoredFileView {
        StoredFileView {
            file_name: self.file_name@,
            record: match self.record {
                Some(record) => Some(record@),
                None => None,
            },
        }
    }
}

impl DeepView for StoredFile {
    type V = StoredFileView;

    open spec fn deep_view(&self) -> StoredFileView {
        self@
    }
}

/// What walking the instances directory gave.
#[derive(Debug, PartialEq, Eq)]
pub enum Listing {
    /// The directory does not exist.
    Missing,
    /// The directory could not be opened; the text says why.
    Unreadable(String),
    /// The walk broke off at an entry; the text says why.
    Interrupted(String),
    /// The files of the directory, in the order in which they were met.
    Entries(Vec<StoredFile>),
}

/// A `Listing` as plain mathematical values.
pub enum ListingView {
    Missing,
    Unreadable(Seq<char>),
    Interrupted(Seq<char>),
    Entries(Seq<StoredFileView>),
}

impl View for Listing {
    type V = ListingView;

    open spec fn view(&self) -> ListingView {
        match self {
            Listing::Missing => ListingView::Missing,
            Listing::Unreadable(cause) => ListingView::Unreadable(cause@),
            Listing::Interrupted(cause) => ListingView::Interrupted(cause@),
            Listing::Entries(entries) => ListingView::Entries(entries.deep_view()),
        }
    }
}

/// How removing the file of one identifier ended.
#[derive(Debug, PartialEq, Eq)]
pub enum RemoveOutcome {
    /// There was no such file, and nothing was done.
    Absent,
    /// The file was there and is deleted.
    Removed,
    /// The file was there and could not be deleted; the text says why.
    Failed(String),
}

/// A `RemoveOutcome` as plain mathematical values.
pub enum RemoveOutcomeView {
    Absent,
    Removed,
    Failed(Seq<char>),
}

impl View for RemoveOutcome {
    type V = RemoveOutcomeView;

    open spec fn view(&self) -> RemoveOutcomeView {
        match self {
            RemoveOutcome::Absent => RemoveOutcomeView::Absent,
            RemoveOutcome::Removed => RemoveOutcomeView::Removed,
            RemoveOutcome::Failed(cause) => RemoveOutcomeView::Failed(cause@),
        }
    }
}

/// The plan that saves `record` in `instances_dir`.
pub open spec fn save_plan_spec(instances_dir: Seq<char>, record: InstanceView) -> SavePlanView {
    SavePlanView {
        directory: instances_dir,
        file: record_file_spec(instances_dir, record.path),
        record,
    }
}

/// What the end of a save means: success exactly where the file was
/// written.
pub open spec fn save_result_spec(outcome: SaveOutcomeView) -> Result<(), ErrorView> {
    match outcome {
        SaveOutcomeView::DirectoryFailed(cause) => Err(
            ErrorView::Io("Failed to create bedrock instances directory: "@ + cause),
        ),
        SaveOutcomeView::SerializeFailed(cause) => Err(
            ErrorView::Parse("Failed to serialize instance: "@ + cause),
        ),
        SaveOutcomeView::WriteFailed(cause) => Err(
            ErrorView::Io("Failed to save instance: "@ + cause),
        ),
        SaveOutcomeView::Saved => Ok(()),
    }
}

/// What a read means: the record where there is one, `NotFound` where the
/// file could not be read, and a parse failure where it holds no record.
pub open spec fn load_result_spec(outcome: LoadOutcomeView) -> Result<InstanceView, ErrorView> {
    match outcome {
        LoadOutcomeView::Unreadable(cause) => Err(
            ErrorView::NotFound("Failed to load instance: "@ + cause),
        ),
        LoadOutcomeView::Malformed(cause) => Err(
            ErrorView::Parse("Failed to parse instance: "@ + cause),
        ),
        LoadOutcomeView::Loaded(record) => Ok(record),
    }
}

/// Whether a file of the instances directory counts as an instance: it is
/// named like a record file and holds a record.
pub open spec fn is_listed(file: StoredFileView) -> bool {
    has_json_extension_spec(file.file_name) && file.record is Some
}

/// The records of the files that count, in the order of the files.
pub open spec fn listed_records(entries: Seq<StoredFileView>) -> Seq<InstanceView>
    decreases entries.len(),
{
    if entries.len() == 0 {
        Seq::empty()
    } else if is_listed(entries.last()) {
        listed_records(entries.drop_last()).push(entries.last().record->0)
    } else {
        listed_records(entries.drop_last())
    }
}

/// The outcome of a listing, its records and its error taken by their views.
pub open spec fn listed_view(r: Result<Vec<BedrockInstance>, BedrockError>) -> Result<
    Seq<InstanceView>,
    ErrorView,
> {
    match r {
        Ok(records) => Ok(records.deep_view()),
        Err(e) => Err(e@),
    }
}

/// What a walk of the directory means: no instances where the directory
/// does not exist, a failure where the walk failed, and else the records of
/// the files that count. A file that holds no record is passed over.
pub open spec fn list_result_spec(listing: ListingView) -> Result<Seq<InstanceView>, ErrorView> {
    match listing {
        ListingView::Missing => Ok(Seq::empty()),
        ListingView::Unreadable(cause) => Err(
            ErrorView::Io("Failed to read bedrock instances directory: "@ + cause),
        ),
        ListingView::Interrupted(cause) => Err(
            ErrorView::Io("Failed to read directory entry: "@ + cause),
        ),
        ListingView::Entries(entries) => Ok(listed_records(entries)),
    }
}

/// What the end of a removal means: success unless a file that was there
/// could not be deleted.
pub open spec fn remove_result_spec(outcome: RemoveOutcomeView) -> Result<(), ErrorView> {
    match outcome {
        RemoveOutcomeView::Absent => Ok(()),
        RemoveOutcomeView::Removed => Ok(()),
        RemoveOutcomeView::Failed(cause) => Err(
            ErrorView::Io("Failed to remove instance file: "@ + cause),
        ),
    }
}

/// Says how to save `record` in `instances_dir`.
pub fn save_plan(instances_dir: &str, record: &BedrockInstance) -> (plan: SavePlan)
    ensures
        plan@ == save_plan_spec(instances_dir@, record@),
{
    SavePlan {
        directory: String::from_str(instances_dir),
        file: record_file(instances_dir, record.path.as_str()),
        record: record.clone(),
    }
}

/// Judges the end of a save.
pub fn save_bedrock_instance(outcome: &SaveOutcome) -> (r: Result<(), BedrockError>)
    ensures
        outcome_view(r) == save_result_spec(outcome@),
{
    match outcome {
        SaveOutcome::DirectoryFailed(cause) => Err(
            BedrockError::Io(
                join2("Failed to create bedrock instances directory: ", cause.as_str()),
            ),
        ),
        SaveOutcome::SerializeFailed(cause) => Err(
            BedrockError::Parse(join2("Failed to serialize instance: ", cause.as_str())),
        ),
        SaveOutcome::WriteFailed(cause) => Err(
            BedrockError::Io(join2("Failed to save instance: ", cause.as_str())),
        ),
        SaveOutcome::Saved => Ok(()),
    }
}

/// The record of an identifier, from what reading its file gave.
pub fn load_bedrock_instance(outcome: LoadOutcome) -> (r: Result<BedrockInstance, BedrockError>)
    ensures
        viewed(r) == load_result_spec(outcome@),
{
    match outcome {
        LoadOutcome::Unreadable(cause) => Err(
            BedrockError::NotFound(join2("Failed to load instance: ", cause.as_str())),
        ),
        LoadOutcome::Malformed(cause) => Err(
            BedrockError::Parse(join2("Failed to parse instance: ", cause.as_str())),
        ),
        LoadOutcome::Loaded(record) => Ok(record),
    }
}

/// The records of the files that count, in the order of the files.
pub fn collect_records(entries: Vec<StoredFile>) -> (records: Vec<BedrockInstance>)
    ensures
        records.deep_view() == listed_records(entries.deep_view()),
{
    let ghost all = entries.deep_view();
    let ghost files = entries@;
    let mut records: Vec<BedrockInstance> = Vec::new();
    assert(records.deep_view() =~= Seq::empty());
    assert(all.take(0) =~= Seq::empty());
    for entry in iter: entries.into_iter()
        invariant
            iter.seq() == files,
            all.len() == files.len(),
            forall|i: int| 0 <= i < files.len() ==> all[i] == files[i]@,
            records.deep_view() == listed_records(all.take(iter.index() as int)),
    {
        let ghost before = records.deep_view();
        let ghost seen = all.take(iter.index() as int);
        let ghost now = all.take(iter.index() + 1);
        assert(now.drop_last() =~= seen);
        assert(now.last() == entry@);
        let StoredFile { file_name, record } = entry;
        if has_json_extension(file_name.as_str()) {
            match record {
                Some(found) => {
                    records.push(found);
                    assert(records.deep_view() =~= before.push(found@));
                },
                None => {},
            }
        }
    }
    assert(all.take(files.len() as int) =~= all);
    records
}

/// The instances of the store, from what walking its directory gave.
pub fn bedrock_list_instances(listing: Listing) -> (r: Result<Vec<BedrockInstance>, BedrockError>)
    ensures
        listed_view(r) == list_result_spec(listing@),
{
    match listing {
        Listing::Missing => {
            let records: Vec<BedrockInstance> = Vec::new();
            assert(records.deep_view() =~= Seq::empty());
            Ok(records)
        },
        Listing::Unreadable(cause) => Err(
            BedrockError::Io(
                join2("Failed to read bedrock instances directory: ", cause.as_str()),
            ),
        ),
        Listing::Interrupted(cause) => Err(
            BedrockError::Io(join2("Failed to read directory entry: ", cause.as_str())),
        ),
        Listing::Entries(entries) => Ok(collect_records(entries)),
    }
}

/// Judges the end of a removal. Removing what is not there is no failure.
pub fn bedrock_remove_instance(outcome: &RemoveOutcome) -> (r: Result<(), BedrockError>)
    ensures
        outcome_view(r) == remove_result_spec(outcome@),
{
    match outcome {
        RemoveOutcome::Absent => Ok(()),
        RemoveOutcome::Removed => Ok(()),
        RemoveOutcome::Failed(cause) => Err(
            BedrockError::Io(join2("Failed to remove instance file: ", cause.as_str())),
        ),
    }
}

} // verus!
