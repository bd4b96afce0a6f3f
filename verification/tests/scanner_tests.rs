use staff_photos::scanner::{
    file_stem, has_image_extension, read_staff_images, scan_entries, staff_member_from_entry,
    DirectoryRead, ListedFile, ScanError, StaffMember,
};

fn listed(dir: &str, file_name: &str) -> ListedFile {
    ListedFile {
        file_name: file_name.to_string(),
        path: format!("{}/{}", dir, file_name),
        is_file: true,
    }
}

fn subdirectory(dir: &str, file_name: &str) -> ListedFile {
    ListedFile { is_file: false, ..listed(dir, file_name) }
}

fn member(name: &str, job_title: Option<&str>, image_path: &str) -> StaffMember {
    StaffMember {
        name: name.to_string(),
        job_title: job_title.map(|t| t.to_string()),
        image_path: image_path.to_string(),
        is_intern: false,
    }
}

#[test]
fn scan_keeps_the_photos_and_drops_the_rest() {
    let files = vec![
        listed("/staff", "Jane Doe - Manager.png"),
        listed("/staff", "John.jpg"),
        listed("/staff", "notes.txt"),
    ];
    let members = scan_entries(&files);
    assert_eq!(members.len(), 2);
    assert!(members.contains(&member(
        "Jane Doe",
        Some("Manager"),
        "/staff/Jane Doe - Manager.png"
    )));
    assert!(members.contains(&member("John", None, "/staff/John.jpg")));
    assert!(members.iter().all(|m| !m.image_path.ends_with("notes.txt")));
}

#[test]
fn scan_follows_the_order_of_the_listing() {
    let files = vec![
        listed("d", "b.png"),
        listed("d", "skip.gif"),
        listed("d", "a.jpeg"),
        listed("d", "c.jpg"),
    ];
    let names: Vec<String> = scan_entries(&files).into_iter().map(|m| m.name).collect();
    assert_eq!(names, vec!["b".to_string(), "a".to_string(), "c".to_string()]);
}

#[test]
fn scan_of_an_empty_listing_is_empty() {
    assert_eq!(scan_entries(&Vec::new()), Vec::<StaffMember>::new());
}

#[test]
fn nobody_is_an_intern() {
    let files = vec![listed("d", "Intern - Intern.png"), listed("d", "x.jpg")];
    assert!(scan_entries(&files).iter().all(|m| !m.is_intern));
}

#[test]
fn the_three_extensions_are_accepted() {
    assert!(has_image_extension("a.jpg"));
    assert!(has_image_extension("a.jpeg"));
    assert!(has_image_extension("a.png"));
}

#[test]
fn extensions_are_compared_case_sensitively() {
    assert!(!has_image_extension("a.JPG"));
    assert!(!has_image_extension("a.Jpeg"));
    assert!(!has_image_extension("a.PNG"));
    assert!(!has_image_extension("a.pnG"));
}

#[test]
fn other_extensions_are_refused() {
    assert!(!has_image_extension("notes.txt"));
    assert!(!has_image_extension("a.gif"));
    assert!(!has_image_extension("a.jpg2"));
    assert!(!has_image_extension("a.jp"));
    assert!(!has_image_extension("a.pngx"));
    assert!(!has_image_extension("a.xjpg"));
}

#[test]
fn a_name_without_extension_is_refused() {
    assert!(!has_image_extension("jpg"));
    assert!(!has_image_extension("portrait"));
    assert!(!has_image_extension(""));
    assert!(!has_image_extension("trailing."));
}

#[test]
fn a_leading_dot_sets_off_no_extension() {
    assert!(!has_image_extension(".jpg"));
    assert!(!has_image_extension(".png"));
    assert!(has_image_extension(".hidden.png"));
}

#[test]
fn only_the_last_dot_counts() {
    assert!(has_image_extension("a.txt.png"));
    assert!(!has_image_extension("a.png.txt"));
}

#[test]
fn stem_is_the_name_before_the_last_dot() {
    assert_eq!(file_stem("Jane Doe - Manager.png"), "Jane Doe - Manager");
    assert_eq!(file_stem("a.b.jpeg"), "a.b");
    assert_eq!(file_stem("portrait"), "portrait");
    assert_eq!(file_stem(".jpg"), ".jpg");
    assert_eq!(file_stem("trailing."), "trailing");
    assert_eq!(file_stem(""), "");
    assert_eq!(file_stem("Zoë.png"), "Zoë");
}

#[test]
fn entry_with_title_becomes_a_record() {
    assert_eq!(
        staff_member_from_entry("Jane Doe - Manager.png", "/staff/Jane Doe - Manager.png"),
        Some(member("Jane Doe", Some("Manager"), "/staff/Jane Doe - Manager.png"))
    );
}

#[test]
fn entry_without_title_becomes_a_record() {
    assert_eq!(
        staff_member_from_entry("John.jpg", "C:\\staff\\John.jpg"),
        Some(member("John", None, "C:\\staff\\John.jpg"))
    );
}

#[test]
fn entry_that_is_no_photo_gives_nothing() {
    assert_eq!(staff_member_from_entry("notes.txt", "/staff/notes.txt"), None);
    assert_eq!(staff_member_from_entry("John.JPG", "/staff/John.JPG"), None);
    assert_eq!(staff_member_from_entry("John", "/staff/John"), None);
}

#[test]
fn dots_in_the_stem_stay_in_the_name() {
    assert_eq!(
        staff_member_from_entry("Dr. A. Smith - C.E.O..jpeg", "p"),
        Some(member("Dr. A. Smith", Some("C.E.O."), "p"))
    );
}

#[test]
fn stem_that_is_only_a_separator_gives_an_empty_name() {
    assert_eq!(staff_member_from_entry(" - .png", "p"), Some(member("", Some(""), "p")));
}

#[test]
fn path_is_kept_as_given() {
    let m = staff_member_from_entry("a.png", "somewhere/else/b.png").expect("a photo");
    assert_eq!(m.image_path, "somewhere/else/b.png");
    assert_eq!(m.name, "a");
}

#[test]
fn only_regular_files_are_staff_photos() {
    let files = vec![
        subdirectory("/staff", "Archive - Old.png"),
        listed("/staff", "John.jpg"),
        subdirectory("/staff", "more.jpg"),
    ];
    assert_eq!(scan_entries(&files), vec![member("John", None, "/staff/John.jpg")]);
    assert!(!subdirectory("/staff", "more.jpg").is_staff_photo());
    assert_eq!(subdirectory("/staff", "more.jpg").staff_member(), None);
}

#[test]
fn listed_file_tells_whether_it_is_a_staff_photo() {
    assert!(listed("d", "a.png").is_staff_photo());
    assert!(listed("d", "A - B.jpeg").is_staff_photo());
    assert!(!listed("d", "a.PNG").is_staff_photo());
    assert!(!listed("d", "notes.txt").is_staff_photo());
    assert!(!listed("d", ".png").is_staff_photo());
}

#[test]
fn listed_file_gives_its_record() {
    assert_eq!(
        listed("/staff", "Jane Doe - Manager.png").staff_member(),
        Some(member("Jane Doe", Some("Manager"), "/staff/Jane Doe - Manager.png"))
    );
    assert_eq!(listed("/staff", "notes.txt").staff_member(), None);
}

#[test]
fn the_photos_are_the_files_that_give_records() {
    let files = vec![
        listed("d", "a.png"),
        listed("d", "b.txt"),
        subdirectory("d", "c.jpg"),
        listed("d", "D - E.jpg"),
    ];
    let photos = files.iter().filter(|f| f.is_staff_photo()).count();
    assert_eq!(scan_entries(&files).len(), photos);
    assert_eq!(photos, 2);
}

#[test]
fn missing_directory_is_not_found() {
    assert_eq!(read_staff_images(DirectoryRead::Missing), Err(ScanError::NotFound));
}

#[test]
fn refused_grant_gives_no_records() {
    assert_eq!(
        read_staff_images(DirectoryRead::Refused("path not allowed".to_string())),
        Err(ScanError::PermissionRegistrationFailed("path not allowed".to_string()))
    );
}

#[test]
fn failed_read_gives_no_records() {
    assert_eq!(
        read_staff_images(DirectoryRead::Failed("permission denied".to_string())),
        Err(ScanError::Io("permission denied".to_string()))
    );
}

#[test]
fn listed_directory_gives_its_records() {
    let files = vec![
        listed("/staff", "Jane Doe - Manager.png"),
        listed("/staff", "John.jpg"),
        listed("/staff", "notes.txt"),
    ];
    assert_eq!(
        read_staff_images(DirectoryRead::Listed(files)),
        Ok(vec![
            member("Jane Doe", Some("Manager"), "/staff/Jane Doe - Manager.png"),
            member("John", None, "/staff/John.jpg"),
        ])
    );
}

#[test]
fn two_scans_of_one_listing_agree() {
    let files = vec![listed("d", "A - B.png"), listed("d", "C.jpg")];
    assert_eq!(scan_entries(&files), scan_entries(&files));
}

#[test]
fn scan_error_messages() {
    assert_eq!(ScanError::NotFound.message(), "Directory does not exist");
    assert_eq!(ScanError::Io("disk".to_string()).message(), "disk");
    assert_eq!(
        ScanError::PermissionRegistrationFailed("scope".to_string()).message(),
        "scope"
    );
}
