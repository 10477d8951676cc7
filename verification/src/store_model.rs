//! What the instance store promises, stated over a model of the instances
//! directory.
//!
//! The model is the directory as the store sees it: which files it has, and
//! for each file the record it holds, if it holds one. The predicates `reads`,
//! `walks` and `removes` say what a caller that does its part reports on a
//! disk that does not fail; the laws then follow from the store's functions.

use vstd::prelude::*;
use crate::error::ErrorView;
use crate::paths::{
    has_json_extension_spec, lemma_json_extension, record_file_name_spec, record_file_spec,
};
use crate::records::InstanceView;
use crate::store::{
    is_listed, list_result_spec, listed_records, load_result_spec, remove_result_spec,
    save_plan_spec, ListingView, LoadOutcomeView, RemoveOutcomeView, StoredFileView,
};

verus! {

/// The instances directory: whether it exists, and what each of its files
/// holds (`None` for a file that holds no record).
pub struct DirectoryModel {
    pub exists: bool,
    pub files: Map<Seq<char>, Option<InstanceView>>,
}

impl DirectoryModel {
    /// A directory that does not exist has no files.
    pub open spec fn well_formed(self) -> bool {
        !self.exists ==> self.files.dom() =~= Set::empty()
    }

    /// Whether the directory has a file of this name.
    pub open spec fn has(self, file_name: Seq<char>) -> bool {
        self.files.dom().contains(file_name)
    }

    /// The directory after `record` was saved: it exists, and the file of
    /// the record's identifier holds the record.
    pub open spec fn after_save(self, record: InstanceView) -> DirectoryModel {
        DirectoryModel {
            exists: true,
            files: self.files.insert(record_file_name_spec(record.path), Some(record)),
        }
    }

    /// The directory after the record of `identifier` was removed: its file
    /// is gone, and nothing else has changed.
    pub open spec fn after_remove(self, identifier: Seq<char>) -> DirectoryModel {
        DirectoryModel {
            exists: self.exists,
            files: self.files.remove(record_file_name_spec(identifier)),
        }
    }
}

/// `outcome` is what reading the file of `identifier` gives.
pub open spec fn reads(dir: DirectoryModel, identifier: Seq<char>, outcome: LoadOutcomeView) -> bool {
    let file_name = record_file_name_spec(identifier);
    if dir.has(file_name) {
        match dir.files[file_name] {
            Some(record) => outcome == LoadOutcomeView::Loaded(record),
            None => outcome is Malformed,
        }
    } else {
        outcome is Unreadable
    }
}

/// `entries` names every file of the directory once, and says of every file
/// that is named like a record file what it holds.
pub open spec fn enumerates(dir: DirectoryModel, entries: Seq<StoredFileView>) -> bool {
    &&& forall|i: int, j: int|
        0 <= i < j < entries.len() ==> entries[i].file_name != entries[j].file_name
    &&& forall|i: int| 0 <= i < entries.len() ==> dir.has(#[trigger] entries[i].file_name)
    &&& forall|name: Seq<char>| #[trigger]
        dir.has(name) ==> exists|i: int|
            0 <= i < entries.len() && #[trigger] entries[i].file_name == name
    &&& forall|i: int|
        0 <= i < entries.len() && has_json_extension_spec(#[trigger] entries[i].file_name)
            ==> entries[i].record == dir.files[entries[i].file_name]
}

/// `listing` is what walking the directory gives.
pub open spec fn walks(dir: DirectoryModel, listing: ListingView) -> bool {
    if dir.exists {
        listing matches ListingView::Entries(entries) && enumerates(dir, entries)
    } else {
        listing == ListingView::Missing
    }
}

/// `outcome` is what removing the file of `identifier` gives.
pub open spec fn removes(dir: DirectoryModel, identifier: Seq<char>, outcome: RemoveOutcomeView) -> bool {
    if dir.has(record_file_name_spec(identifier)) {
        outcome == RemoveOutcomeView::Removed
    } else {
        outcome == RemoveOutcomeView::Absent
    }
}

/// Different identifiers are stored in different files.
pub proof fn law_one_file_per_identifier(a: Seq<char>, b: Seq<char>)
    ensures
        record_file_name_spec(a) == record_file_name_spec(b) <==> a == b,
{
    let fa = record_file_name_spec(a);
    let fb = record_file_name_spec(b);
    if fa == fb {
        assert(fa.len() == a.len() + ".json"@.len());
        assert(fb.len() == b.len() + ".json"@.len());
        assert forall|i: int| 0 <= i < a.len() implies a[i] == b[i] by {
            assert(fa[i] == a[i]);
            assert(fb[i] == b[i]);
        }
        assert(a =~= b);
    }
}

/// The file of an identifier is named like a record file, unless the
/// identifier is empty.
pub proof fn law_record_files_are_listed(identifier: Seq<char>)
    ensures
        has_json_extension_spec(record_file_name_spec(identifier)) <==> identifier.len() > 0,
{
    reveal_strlit(".json");
    let name = record_file_name_spec(identifier);
    lemma_json_extension(name);
    if identifier.len() > 0 {
        assert(name.skip(name.len() - 5) =~= ".json"@);
    }
}

/// Saving a record and then loading its identifier gives the record back:
/// the save writes the file that the load reads, and a record that was read
/// is handed on as it is.
pub proof fn law_save_then_load(
    instances_dir: Seq<char>,
    dir: DirectoryModel,
    record: InstanceView,
    outcome: LoadOutcomeView,
)
    requires
        reads(dir.after_save(record), record.path, outcome),
    ensures
        save_plan_spec(instances_dir, record).file == record_file_spec(instances_dir, record.path),
        save_plan_spec(instances_dir, record).record == record,
        load_result_spec(outcome) == Ok::<InstanceView, ErrorView>(record),
{
}

/// Listing a directory that does not exist, or one without files, gives no
/// instances and no failure.
pub proof fn law_list_of_nothing(dir: DirectoryModel, listing: ListingView)
    requires
        dir.well_formed(),
        dir.files.dom() =~= Set::empty(),
        walks(dir, listing),
    ensures
        list_result_spec(listing) == Ok::<Seq<InstanceView>, ErrorView>(Seq::empty()),
{
    if dir.exists {
        let entries = listing->Entries_0;
        if entries.len() > 0 {
            assert(dir.has(entries[0].file_name));
        }
    }
}

/// A record is listed exactly when one of the entries that count holds it.
pub proof fn lemma_listed_records(entries: Seq<StoredFileView>, record: InstanceView)
    ensures
        listed_records(entries).contains(record) <==> exists|i: int|
            0 <= i < entries.len() && is_listed(#[trigger] entries[i]) && entries[i].record
                == Some(record),
        listed_records(entries).len() <= entries.len(),
    decreases entries.len(),
{
    if entries.len() > 0 {
        let front = entries.drop_last();
        let last = entries.last();
        lemma_listed_records(front, record);
        let listed = listed_records(entries);
        if listed.contains(record) {
            let k = choose|k: int| 0 <= k < listed.len() && listed[k] == record;
            if is_listed(last) && k == listed.len() - 1 {
                assert(is_listed(entries[entries.len() - 1]));
            } else {
                assert(listed_records(front)[k] == record);
                let i = choose|i: int|
                    0 <= i < front.len() && is_listed(#[trigger] front[i]) && front[i].record
                        == Some(record);
                assert(entries[i] == front[i]);
            }
        }
        if exists|i: int|
            0 <= i < entries.len() && is_listed(#[trigger] entries[i]) && entries[i].record
                == Some(record) {
            let i = choose|i: int|
                0 <= i < entries.len() && is_listed(#[trigger] entries[i]) && entries[i].record
                    == Some(record);
            if i < front.len() {
                assert(front[i] == entries[i]);
                let k = choose|k: int|
                    0 <= k < listed_records(front).len() && listed_records(front)[k] == record;
                assert(listed[k] == record);
            } else {
                assert(listed[listed.len() - 1] == record);
            }
        }
    }
}

/// Listing gives exactly the records of the files that are named like a
/// record file and hold a record; every other file is passed over.
pub proof fn law_list_membership(dir: DirectoryModel, listing: ListingView, record: InstanceView)
    requires
        dir.exists,
        walks(dir, listing),
    ensures
        list_result_spec(listing) matches Ok(records) && (records.contains(record) <==> exists|
            name: Seq<char>,
        |
            dir.has(name) && has_json_extension_spec(name) && #[trigger] dir.files[name] == Some(
                record,
            )),
{
    let entries = listing->Entries_0;
    lemma_listed_records(entries, record);
    if listed_records(entries).contains(record) {
        let i = choose|i: int|
            0 <= i < entries.len() && is_listed(#[trigger] entries[i]) && entries[i].record
                == Some(record);
        let name = entries[i].file_name;
        assert(dir.has(name) && has_json_extension_spec(name) && dir.files[name] == Some(record));
    }
    if exists|name: Seq<char>|
        dir.has(name) && has_json_extension_spec(name) && #[trigger] dir.files[name] == Some(
            record,
        ) {
        let name = choose|name: Seq<char>|
            dir.has(name) && has_json_extension_spec(name) && #[trigger] dir.files[name] == Some(
                record,
            );
        let i = choose|i: int| 0 <= i < entries.len() && #[trigger] entries[i].file_name == name;
        assert(is_listed(entries[i]));
    }
}

/// Listing a directory with one well-formed and one malformed record file
/// gives exactly the well-formed record.
pub proof fn law_list_skips_malformed(
    good: Seq<char>,
    bad: Seq<char>,
    record: InstanceView,
    listing: ListingView,
)
    requires
        good != bad,
        has_json_extension_spec(good),
        has_json_extension_spec(bad),
        walks(
            DirectoryModel {
                exists: true,
                files: Map::empty().insert(good, Some(record)).insert(bad, None),
            },
            listing,
        ),
    ensures
        list_result_spec(listing) == Ok::<Seq<InstanceView>, ErrorView>(seq![record]),
{
    let dir = DirectoryModel {
        exists: true,
        files: Map::empty().insert(good, Some(record)).insert(bad, None),
    };
    let entries = listing->Entries_0;
    assert(dir.has(good));
    assert(dir.has(bad));
    let g = choose|i: int| 0 <= i < entries.len() && #[trigger] entries[i].file_name == good;
    let b = choose|i: int| 0 <= i < entries.len() && #[trigger] entries[i].file_name == bad;
    assert(g != b);
    if entries.len() > 2 {
        assert(dir.has(entries[0].file_name));
        assert(dir.has(entries[1].file_name));
        assert(dir.has(entries[2].file_name));
        assert(entries[0].file_name != entries[1].file_name);
        assert(entries[0].file_name != entries[2].file_name);
        assert(entries[1].file_name != entries[2].file_name);
    }
    assert(entries.len() == 2);
    assert(entries[g].record == Some(record));
    assert(entries[b].record == None::<InstanceView>);
    assert(entries.drop_last().drop_last() =~= Seq::empty());
    assert(entries.drop_last().last() == entries[0]);
    reveal_with_fuel(listed_records, 3);
    assert(listed_records(entries) =~= seq![record]);
}

/// Removing an identifier that is not stored succeeds and changes nothing,
/// and loading it afterwards fails with `NotFound`.
pub proof fn law_remove_absent(
    dir: DirectoryModel,
    identifier: Seq<char>,
    removal: RemoveOutcomeView,
    outcome: LoadOutcomeView,
)
    requires
        !dir.has(record_file_name_spec(identifier)),
        removes(dir, identifier, removal),
        reads(dir.after_remove(identifier), identifier, outcome),
    ensures
        remove_result_spec(removal) == Ok::<(), ErrorView>(()),
        dir.after_remove(identifier) == dir,
        load_result_spec(outcome) matches Err(e) && e is NotFound,
{
    assert(dir.after_remove(identifier).files =~= dir.files);
}

/// Removing an identifier succeeds whether or not it is stored, and loading
/// it afterwards fails with `NotFound`.
pub proof fn law_remove_then_load(
    dir: DirectoryModel,
    identifier: Seq<char>,
    removal: RemoveOutcomeView,
    outcome: LoadOutcomeView,
)
    requires
        removes(dir, identifier, removal),
        reads(dir.after_remove(identifier), identifier, outcome),
    ensures
        remove_result_spec(removal) == Ok::<(), ErrorView>(()),
        load_result_spec(outcome) matches Err(e) && e is NotFound,
{
}

} // verus!
