use bedrock_launcher::paths::{
    artifact_path, catalog_file, derived_identifier, downloads_dir, has_json_extension,
    identifier_for_slug, instances_dir, instances_dir_in, join_path, record_file,
    record_file_name, DEV_SCRIPTS_DIR,
};
use bedrock_launcher::error::BedrockError;
use bedrock_launcher::scripts::{
    get_script_path, get_scripts_dir, scripts_dir_from, Script, ScriptsProbe,
};
use bedrock_launcher::text::{captured_text, join2, join3, underscore_spaces};

#[test]
fn identifier_of_a_plain_name() {
    assert_eq!(derived_identifier("My World"), "bedrock_my_world");
}

#[test]
fn identifier_replaces_every_space() {
    assert_eq!(derived_identifier("  A  B "), "bedrock___a__b_");
}

#[test]
fn identifier_of_the_empty_name_is_the_prefix() {
    assert_eq!(derived_identifier(""), "bedrock_");
}

#[test]
fn identifier_lowercases_beyond_ascii() {
    assert_eq!(derived_identifier("ÄRGER Über"), "bedrock_ärger_über");
}

#[test]
fn identifier_keeps_other_white_space() {
    assert_eq!(derived_identifier("a\tb"), "bedrock_a\tb");
}

#[test]
fn identifier_is_stable() {
    let first = derived_identifier("Survival Base 2");
    let second = derived_identifier("Survival Base 2");
    assert_eq!(first, second);
    assert_eq!(first, "bedrock_survival_base_2");
}

#[test]
fn identifier_for_slug_only_adds_the_prefix() {
    assert_eq!(identifier_for_slug("Mixed Case"), "bedrock_Mixed Case");
}

#[test]
fn underscore_spaces_changes_spaces_only() {
    assert_eq!(underscore_spaces("a b_c  D"), "a_b_c__D");
    assert_eq!(underscore_spaces(""), "");
    assert_eq!(underscore_spaces("é è"), "é_è");
}

#[test]
fn joins_put_the_parts_in_order() {
    assert_eq!(join2("ab", "cd"), "abcd");
    assert_eq!(join3("a", "", "c"), "ac");
    assert_eq!(join_path("dir", "file"), "dir/file");
    assert_eq!(join_path("", ""), "/");
}

#[test]
fn record_file_is_named_after_the_identifier() {
    assert_eq!(record_file_name("bedrock_my_world"), "bedrock_my_world.json");
    assert_eq!(
        record_file("/data/com.modrinth.app/bedrock_instances", "bedrock_my_world"),
        "/data/com.modrinth.app/bedrock_instances/bedrock_my_world.json"
    );
}

#[test]
fn artifact_path_follows_the_formula() {
    assert_eq!(downloads_dir("scripts"), "scripts/../downloads");
    assert_eq!(artifact_path("scripts", "1.20"), "scripts/../downloads/1.20.Appx");
    assert_eq!(artifact_path("scripts", ""), "scripts/../downloads/.Appx");
    assert_eq!(catalog_file("scripts"), "scripts/../version.json");
}

#[test]
fn json_extension_of_ordinary_names() {
    assert!(has_json_extension("bedrock_my_world.json"));
    assert!(has_json_extension("a.json"));
    assert!(has_json_extension("a.b.json"));
    assert!(has_json_extension("ä.json"));
}

#[test]
fn json_extension_needs_a_stem() {
    assert!(!has_json_extension(".json"));
    assert!(!has_json_extension("json"));
    assert!(!has_json_extension(""));
    assert!(has_json_extension("..json"));
}

#[test]
fn json_extension_is_exact() {
    assert!(!has_json_extension("a.JSON"));
    assert!(!has_json_extension("a.json.bak"));
    assert!(!has_json_extension("a.jso"));
    assert!(!has_json_extension("a.jsonx"));
    assert!(!has_json_extension("ajson"));
    assert!(!has_json_extension(".."));
    assert!(!has_json_extension("a.json "));
}

#[test]
fn instances_dir_lies_below_the_data_dir() {
    assert_eq!(
        instances_dir_in(Some("/home/alice/.local/share".to_string())),
        Ok("/home/alice/.local/share/com.modrinth.app/bedrock_instances".to_string())
    );
}

#[test]
fn instances_dir_needs_a_data_dir() {
    assert_eq!(
        instances_dir_in(None),
        Err(BedrockError::Io("Failed to get app data directory".to_string()))
    );
}

#[test]
fn instances_dir_of_this_user() {
    match instances_dir() {
        Ok(dir) => assert!(dir.ends_with("/com.modrinth.app/bedrock_instances")),
        Err(e) => assert_eq!(e, BedrockError::Io("Failed to get app data directory".to_string())),
    }
}

#[test]
fn scripts_dir_prefers_the_bundled_one() {
    let probe = ScriptsProbe { bundled_exists: true, dev_exists: true };
    assert_eq!(scripts_dir_from(probe, None), Ok("scripts".to_string()));
    assert_eq!(scripts_dir_from(probe, Some("/d".to_string())), Ok("scripts".to_string()));
    assert_eq!(get_scripts_dir(probe), Ok("scripts".to_string()));
}

#[test]
fn scripts_dir_then_takes_the_development_one() {
    let probe = ScriptsProbe { bundled_exists: false, dev_exists: true };
    assert_eq!(scripts_dir_from(probe, None), Ok(DEV_SCRIPTS_DIR.to_string()));
    assert_eq!(get_scripts_dir(probe), Ok("../../../ß¬α¿»Γδ/scripts".to_string()));
}

#[test]
fn scripts_dir_falls_back_to_the_users_own() {
    let probe = ScriptsProbe { bundled_exists: false, dev_exists: false };
    assert_eq!(
        scripts_dir_from(probe, Some("/data".to_string())),
        Ok("/data/com.modrinth.app/scripts".to_string())
    );
    assert_eq!(
        scripts_dir_from(probe, None),
        Err(BedrockError::Io("Failed to get app data directory".to_string()))
    );
    match get_scripts_dir(probe) {
        Ok(dir) => assert!(dir.ends_with("/com.modrinth.app/scripts")),
        Err(e) => assert_eq!(e, BedrockError::Io("Failed to get app data directory".to_string())),
    }
}

#[test]
fn script_path_is_inside_the_scripts_dir() {
    assert_eq!(
        get_script_path("scripts", Script::Download.file_name()),
        "scripts/download_bedrock_appx.js"
    );
    assert_eq!(Script::RefreshCatalog.file_name(), "generate_version_json.js");
    assert_eq!(Script::Install.file_name(), "install_bedrock_appx.js");
}

#[test]
fn captured_text_decodes_utf8() {
    assert_eq!(captured_text(&"grüß dich".as_bytes().to_vec()), "grüß dich");
    assert_eq!(captured_text(&Vec::new()), "");
}

#[test]
fn captured_text_replaces_what_is_no_utf8() {
    assert_eq!(captured_text(&vec![b'a', 0xff, b'b']), "a\u{fffd}b");
}
