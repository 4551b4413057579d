use alcom::paths::{
    added_extension, alcom_path, default_backup_path_for, default_default_project_path_for,
    settle_backup_path, settle_default_project_path,
    default_backup_path, default_default_project_path, default_project_path, project_backup_path,
    GuiSettings,
};
use alcom::scheme::{
    arch_name, global_info_script, handle_vrc_get_scheme, os_type_name, SchemeRoute, TargetArch,
    TargetOs,
};
use alcom::text::str_equals;
use alcom::vcc::{
    find_by_path, invalid_project_message, no_project_message, no_unity_message,
    project_list_order, project_listing, unity_added_message, unity_listing, ProjectAdd,
};

#[test]
fn default_paths_end_with_their_folder() {
    if let Some(p) = default_backup_path() {
        assert!(p.ends_with("Backups"));
        assert!(p.contains("ALCOM"));
    }
    if let Some(p) = default_default_project_path() {
        assert!(p.ends_with("Projects"));
        assert!(p.contains("ALCOM"));
    }
}

#[test]
fn set_backup_path_is_kept() {
    let mut settings = GuiSettings::new(Some("/backups".to_string()), None);
    assert_eq!(project_backup_path(&mut settings).as_deref(), Some("/backups"));
    assert!(!settings.save_required());
    assert_eq!(settings.project_backup_path(), Some("/backups"));
}

#[test]
fn missing_backup_path_is_set_once() {
    let mut settings = GuiSettings::new(None, Some("/projects".to_string()));
    let first = project_backup_path(&mut settings);
    if let Some(first) = first {
        assert!(first.ends_with("Backups"));
        assert!(settings.save_required());
        assert_eq!(settings.project_backup_path(), Some(first.as_str()));
        assert_eq!(project_backup_path(&mut settings), Some(first));
    } else {
        assert!(!settings.save_required());
        assert_eq!(settings.project_backup_path(), None);
    }
    assert_eq!(settings.default_project_path(), Some("/projects"));
}

#[test]
fn missing_project_path_is_set_once() {
    let mut settings = GuiSettings::new(None, None);
    if let Some(first) = default_project_path(&mut settings) {
        assert!(first.ends_with("Projects"));
        assert!(settings.save_required());
        assert_eq!(default_project_path(&mut settings), Some(first));
    }
    assert_eq!(settings.project_backup_path(), None);
    let mut set = GuiSettings::new(None, Some("/p".to_string()));
    assert_eq!(default_project_path(&mut set).as_deref(), Some("/p"));
    assert!(!set.save_required());
}

#[test]
fn scheme_routes() {
    assert_eq!(handle_vrc_get_scheme(Some("vrc-get"), "/global-info.js"), SchemeRoute::GlobalInfo);
    assert_eq!(handle_vrc_get_scheme(Some("vrc-get"), "/other.js"), SchemeRoute::BadUrl);
    assert_eq!(handle_vrc_get_scheme(Some("https"), "/global-info.js"), SchemeRoute::BadScheme);
    assert_eq!(handle_vrc_get_scheme(None, "/global-info.js"), SchemeRoute::BadScheme);
}

#[test]
fn scheme_answers() {
    assert_eq!(SchemeRoute::GlobalInfo.status(), 200);
    assert_eq!(SchemeRoute::BadScheme.status(), 404);
    assert_eq!(SchemeRoute::BadUrl.status(), 404);
    assert_eq!(SchemeRoute::BadScheme.not_found_body(), Some("bad sceme"));
    assert_eq!(SchemeRoute::BadUrl.not_found_body(), Some("bad url"));
    assert_eq!(SchemeRoute::GlobalInfo.not_found_body(), None);
}

#[test]
fn global_info_script_prefixes_json() {
    let script = global_info_script(br#"{"language":"en"}"#);
    assert_eq!(script, br#"globalThis.vrcGetGlobalInfo = {"language":"en"}"#.to_vec());
    assert_eq!(global_info_script(b""), b"globalThis.vrcGetGlobalInfo = ".to_vec());
}

#[test]
fn platform_names() {
    assert_eq!(os_type_name(TargetOs::MacOs), "Darwin");
    assert_eq!(os_type_name(TargetOs::Windows), "WindowsNT");
    assert_eq!(os_type_name(TargetOs::Linux), "Linux");
    assert_eq!(arch_name(TargetArch::X86_64), "x86_64");
    assert_eq!(arch_name(TargetArch::Aarch64), "aarch64");
}

#[test]
fn texts_compare_by_characters() {
    assert!(str_equals("abc", "abc"));
    assert!(!str_equals("abc", "abd"));
    assert!(!str_equals("abc", "ab"));
    assert!(str_equals("", ""));
    assert!(str_equals("日本", "日本"));
}

#[test]
fn projects_listed_latest_first_ties_kept() {
    assert_eq!(project_list_order(&vec![5, 9, 5, 12]), vec![3, 1, 0, 2]);
    assert_eq!(project_list_order(&vec![]), Vec::<usize>::new());
    assert_eq!(project_list_order(&vec![1, 1, 1]), vec![0, 1, 2]);
    assert_eq!(project_list_order(&vec![-3, 0, i64::MIN, i64::MAX]), vec![3, 1, 0, 2]);
}

#[test]
fn find_by_path_finds_first() {
    let paths = vec!["/a".to_string(), "/b".to_string(), "/b".to_string()];
    assert_eq!(find_by_path(&paths, "/b"), Some(1));
    assert_eq!(find_by_path(&paths, "/a"), Some(0));
    assert_eq!(find_by_path(&paths, "/c"), None);
    assert_eq!(find_by_path(&vec![], "/a"), None);
}

#[test]
fn listing_lines() {
    let lines = project_listing("Proj", "/p", Some("2022.3.6f1"), "Avatars", true);
    assert_eq!(
        lines,
        vec!["Proj:", "  Path: /p", "  Unity: 2022.3.6f1", "  Target: Avatars", "  Is Favorite: true"]
    );
    let lines = project_listing("X", "/x", None, "Worlds", false);
    assert_eq!(lines[2], "  Unity: unknown");
    assert_eq!(lines[4], "  Is Favorite: false");
    assert_eq!(unity_listing(Some("2022.3.6f1"), "/u"), "version 2022.3.6f1 at /u");
    assert_eq!(unity_listing(None, "/u"), "unknown version at /u");
}

#[test]
fn command_messages() {
    assert_eq!(unity_added_message("2019.4.31f1", "/u"), "Added version 2019.4.31f1 at /u");
    assert_eq!(invalid_project_message("/p"), "Invalid project at /p");
    assert_eq!(no_project_message("/p"), "No project found at /p");
    assert_eq!(no_unity_message("/u"), "No unity installation found at /u");
    assert_eq!(ProjectAdd::new("/p".to_string()).path(), "/p");
}

#[test]
fn alcom_folder_layout() {
    let sep = std::path::MAIN_SEPARATOR;
    assert_eq!(alcom_path("/home/u", "Backups"), format!("/home/u{sep}ALCOM{sep}Backups"));
    assert_eq!(alcom_path("/home/u/", "Projects"), format!("/home/u/ALCOM{sep}Projects"));
    assert_eq!(alcom_path("", "Backups"), format!("ALCOM{sep}Backups"));
}

#[test]
fn default_folders_are_in_alcom_folder() {
    let sep = std::path::MAIN_SEPARATOR;
    if let Some(p) = default_backup_path() {
        assert!(p.ends_with(&format!("ALCOM{sep}Backups")));
    }
    if let Some(p) = default_default_project_path() {
        assert!(p.ends_with(&format!("ALCOM{sep}Projects")));
    }
}

#[test]
fn added_extension_joins_with_a_dot() {
    assert_eq!(added_extension(Some("tar"), "gz"), "tar.gz");
    assert_eq!(added_extension(None, "gz"), "gz");
    assert_eq!(added_extension(Some(""), "bak"), ".bak");
}

#[test]
fn default_folders_for_a_home() {
    let sep = std::path::MAIN_SEPARATOR;
    assert_eq!(default_backup_path_for(None), None);
    assert_eq!(default_default_project_path_for(None), None);
    assert_eq!(
        default_backup_path_for(Some("/home/u")),
        Some(format!("/home/u{sep}ALCOM{sep}Backups"))
    );
    assert_eq!(
        default_default_project_path_for(Some("/home/u")),
        Some(format!("/home/u{sep}ALCOM{sep}Projects"))
    );
}

#[test]
fn settling_a_backup_folder() {
    let mut settings = GuiSettings::new(None, Some("/p".to_string()));
    assert_eq!(settle_backup_path(&mut settings, None), None);
    assert!(!settings.save_required());
    assert_eq!(settings.project_backup_path(), None);
    assert_eq!(
        settle_backup_path(&mut settings, Some("/b".to_string())).as_deref(),
        Some("/b")
    );
    assert!(settings.save_required());
    assert_eq!(settings.project_backup_path(), Some("/b"));
    assert_eq!(settings.default_project_path(), Some("/p"));
    assert_eq!(
        settle_backup_path(&mut settings, Some("/other".to_string())).as_deref(),
        Some("/b")
    );
    assert_eq!(settings.project_backup_path(), Some("/b"));
}

#[test]
fn settling_a_project_folder() {
    let mut settings = GuiSettings::new(Some("/b".to_string()), None);
    assert_eq!(settle_default_project_path(&mut settings, None), None);
    assert!(!settings.save_required());
    assert_eq!(
        settle_default_project_path(&mut settings, Some("/p".to_string())).as_deref(),
        Some("/p")
    );
    assert!(settings.save_required());
    assert_eq!(settings.default_project_path(), Some("/p"));
    assert_eq!(settings.project_backup_path(), Some("/b"));
    let mut set = GuiSettings::new(None, Some("/q".to_string()));
    assert_eq!(
        settle_default_project_path(&mut set, Some("/p".to_string())).as_deref(),
        Some("/q")
    );
    assert!(!set.save_required());
}
