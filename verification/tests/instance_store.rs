use bedrock_launcher::error::BedrockError;
use bedrock_launcher::paths::{has_json_extension, record_file, record_file_name};
use bedrock_launcher::records::BedrockInstance;
use bedrock_launcher::store::{
    bedrock_list_instances, bedrock_remove_instance, collect_records, load_bedrock_instance,
    save_bedrock_instance, save_plan, Listing, LoadOutcome, RemoveOutcome, SaveOutcome, SavePlan,
    StoredFile,
};

/// A directory in memory: file names with what each file holds, `None` for a
/// file that holds no record. `None` as a whole: the directory does not exist.
struct Disk {
    files: Option<Vec<(String, Option<BedrockInstance>)>>,
}

const BASE: &str = "/data/com.modrinth.app/bedrock_instances";

fn file_name_of(path: &str) -> String {
    path.strip_prefix(BASE).unwrap().strip_prefix('/').unwrap().to_string()
}

impl Disk {
    fn carry_out(&mut self, plan: SavePlan) -> SaveOutcome {
        assert_eq!(plan.directory, BASE);
        let name = file_name_of(&plan.file);
        let files = self.files.get_or_insert_with(Vec::new);
        files.retain(|(n, _)| *n != name);
        files.push((name, Some(plan.record)));
        SaveOutcome::Saved
    }

    fn read(&self, identifier: &str) -> LoadOutcome {
        let name = file_name_of(&record_file(BASE, identifier));
        let found = self.files.iter().flatten().find(|(n, _)| *n == name);
        match found {
            None => LoadOutcome::Unreadable("No such file or directory (os error 2)".to_string()),
            Some((_, None)) => LoadOutcome::Malformed("expected value".to_string()),
            Some((_, Some(record))) => LoadOutcome::Loaded(record.clone()),
        }
    }

    fn walk(&self) -> Listing {
        match &self.files {
            None => Listing::Missing,
            Some(files) => Listing::Entries(
                files
                    .iter()
                    .map(|(n, r)| StoredFile {
                        file_name: n.clone(),
                        record: if has_json_extension(n) { r.clone() } else { None },
                    })
                    .collect(),
            ),
        }
    }

    fn delete(&mut self, identifier: &str) -> RemoveOutcome {
        let name = record_file_name(identifier);
        match &mut self.files {
            Some(files) if files.iter().any(|(n, _)| *n == name) => {
                files.retain(|(n, _)| *n != name);
                RemoveOutcome::Removed
            }
            _ => RemoveOutcome::Absent,
        }
    }
}

fn my_world() -> BedrockInstance {
    BedrockInstance {
        name: "My World".to_string(),
        version: "1.20".to_string(),
        path: "bedrock_my_world".to_string(),
        installed: true,
        appx_path: None,
    }
}

fn other_world() -> BedrockInstance {
    BedrockInstance {
        name: "Other".to_string(),
        version: "1.19".to_string(),
        path: "bedrock_other".to_string(),
        installed: true,
        appx_path: Some("scripts/../downloads/1.19.Appx".to_string()),
    }
}

#[test]
fn save_list_remove_list() {
    let mut disk = Disk { files: None };
    let outcome = disk.carry_out(save_plan(BASE, &my_world()));
    assert_eq!(save_bedrock_instance(&outcome), Ok(()));
    assert_eq!(bedrock_list_instances(disk.walk()), Ok(vec![my_world()]));
    let removal = disk.delete("bedrock_my_world");
    assert_eq!(removal, RemoveOutcome::Removed);
    assert_eq!(bedrock_remove_instance(&removal), Ok(()));
    assert_eq!(bedrock_list_instances(disk.walk()), Ok(Vec::new()));
}

#[test]
fn save_plan_names_directory_file_and_record() {
    assert_eq!(
        save_plan(BASE, &my_world()),
        SavePlan {
            directory: BASE.to_string(),
            file: "/data/com.modrinth.app/bedrock_instances/bedrock_my_world.json".to_string(),
            record: my_world(),
        }
    );
}

#[test]
fn save_then_load_gives_the_record_back() {
    let mut disk = Disk { files: Some(Vec::new()) };
    disk.carry_out(save_plan(BASE, &other_world()));
    disk.carry_out(save_plan(BASE, &my_world()));
    assert_eq!(load_bedrock_instance(disk.read("bedrock_my_world")), Ok(my_world()));
    assert_eq!(load_bedrock_instance(disk.read("bedrock_other")), Ok(other_world()));
}

#[test]
fn save_overwrites_what_was_there() {
    let mut disk = Disk { files: None };
    disk.carry_out(save_plan(BASE, &my_world()));
    let mut newer = my_world();
    newer.version = "1.21".to_string();
    disk.carry_out(save_plan(BASE, &newer));
    assert_eq!(load_bedrock_instance(disk.read("bedrock_my_world")), Ok(newer.clone()));
    assert_eq!(bedrock_list_instances(disk.walk()), Ok(vec![newer]));
}

#[test]
fn save_failures_are_told_apart() {
    assert_eq!(
        save_bedrock_instance(&SaveOutcome::DirectoryFailed("Permission denied".to_string())),
        Err(BedrockError::Io(
            "Failed to create bedrock instances directory: Permission denied".to_string()
        ))
    );
    assert_eq!(
        save_bedrock_instance(&SaveOutcome::SerializeFailed("key must be a string".to_string())),
        Err(BedrockError::Parse(
            "Failed to serialize instance: key must be a string".to_string()
        ))
    );
    assert_eq!(
        save_bedrock_instance(&SaveOutcome::WriteFailed("disk full".to_string())),
        Err(BedrockError::Io("Failed to save instance: disk full".to_string()))
    );
}

#[test]
fn load_of_a_missing_file_is_not_found() {
    let disk = Disk { files: Some(Vec::new()) };
    assert_eq!(
        load_bedrock_instance(disk.read("bedrock_nobody")),
        Err(BedrockError::NotFound(
            "Failed to load instance: No such file or directory (os error 2)".to_string()
        ))
    );
}

#[test]
fn load_of_a_malformed_file_is_a_parse_failure() {
    let disk = Disk { files: Some(vec![("bedrock_broken.json".to_string(), None)]) };
    assert_eq!(
        load_bedrock_instance(disk.read("bedrock_broken")),
        Err(BedrockError::Parse("Failed to parse instance: expected value".to_string()))
    );
}

#[test]
fn list_of_a_missing_directory_is_empty() {
    assert_eq!(bedrock_list_instances(Listing::Missing), Ok(Vec::new()));
    assert_eq!(bedrock_list_instances(Disk { files: None }.walk()), Ok(Vec::new()));
}

#[test]
fn list_of_an_empty_directory_is_empty() {
    assert_eq!(bedrock_list_instances(Listing::Entries(Vec::new())), Ok(Vec::new()));
}

#[test]
fn list_passes_over_a_malformed_file() {
    let disk = Disk {
        files: Some(vec![
            ("bedrock_broken.json".to_string(), None),
            ("bedrock_my_world.json".to_string(), Some(my_world())),
        ]),
    };
    assert_eq!(bedrock_list_instances(disk.walk()), Ok(vec![my_world()]));
}

#[test]
fn list_passes_over_files_that_are_not_named_like_records() {
    let entries = vec![
        StoredFile { file_name: "notes.txt".to_string(), record: Some(other_world()) },
        StoredFile { file_name: ".json".to_string(), record: Some(other_world()) },
        StoredFile { file_name: "bedrock_my_world.json".to_string(), record: Some(my_world()) },
        StoredFile { file_name: "backup.json.old".to_string(), record: Some(other_world()) },
    ];
    assert_eq!(bedrock_list_instances(Listing::Entries(entries)), Ok(vec![my_world()]));
}

#[test]
fn list_keeps_the_order_of_the_files() {
    let entries = vec![
        StoredFile { file_name: "b.json".to_string(), record: Some(other_world()) },
        StoredFile { file_name: "skip.json".to_string(), record: None },
        StoredFile { file_name: "a.json".to_string(), record: Some(my_world()) },
    ];
    assert_eq!(collect_records(entries), vec![other_world(), my_world()]);
}

#[test]
fn list_fails_where_the_walk_fails() {
    assert_eq!(
        bedrock_list_instances(Listing::Unreadable("Permission denied".to_string())),
        Err(BedrockError::Io(
            "Failed to read bedrock instances directory: Permission denied".to_string()
        ))
    );
    assert_eq!(
        bedrock_list_instances(Listing::Interrupted("Input/output error".to_string())),
        Err(BedrockError::Io(
            "Failed to read directory entry: Input/output error".to_string()
        ))
    );
}

#[test]
fn remove_of_what_is_not_there_succeeds() {
    let mut disk = Disk { files: Some(vec![("bedrock_other.json".to_string(), Some(other_world()))]) };
    let removal = disk.delete("bedrock_my_world");
    assert_eq!(removal, RemoveOutcome::Absent);
    assert_eq!(bedrock_remove_instance(&removal), Ok(()));
    assert!(matches!(
        load_bedrock_instance(disk.read("bedrock_my_world")),
        Err(BedrockError::NotFound(_))
    ));
    assert_eq!(bedrock_list_instances(disk.walk()), Ok(vec![other_world()]));
}

#[test]
fn remove_then_load_is_not_found() {
    let mut disk = Disk { files: None };
    disk.carry_out(save_plan(BASE, &my_world()));
    let removal = disk.delete("bedrock_my_world");
    assert_eq!(bedrock_remove_instance(&removal), Ok(()));
    assert!(matches!(
        load_bedrock_instance(disk.read("bedrock_my_world")),
        Err(BedrockError::NotFound(_))
    ));
}

#[test]
fn remove_that_fails_is_an_io_failure() {
    assert_eq!(
        bedrock_remove_instance(&RemoveOutcome::Failed("Permission denied".to_string())),
        Err(BedrockError::Io("Failed to remove instance file: Permission denied".to_string()))
    );
}
