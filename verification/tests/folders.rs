use omniform::dependencies::TargetOs;
use omniform::folders::{choose_output_dir, get_default_output_dir, open_folder_command, reveal_command};

#[test]
fn download_folder_first() {
    assert_eq!(
        choose_output_dir(Some("/home/u/Downloads".to_string()), Some("/home/u".to_string())),
        Ok("/home/u/Downloads".to_string())
    );
    assert_eq!(choose_output_dir(None, Some("/home/u".to_string())), Ok("/home/u".to_string()));
    assert_eq!(
        choose_output_dir(None, None),
        Err("could not determine a default folder".to_string())
    );
}

#[test]
fn default_folder_is_found_or_explained() {
    match get_default_output_dir() {
        Ok(p) => assert!(!p.is_empty()),
        Err(e) => assert_eq!(e, "could not determine a default folder"),
    }
}

#[test]
fn reveal_commands() {
    assert_eq!(
        open_folder_command(TargetOs::Windows, "C:\\Videos\\a.mp4"),
        Some(("explorer".to_string(), vec!["C:\\Videos\\a.mp4".to_string()]))
    );
    assert_eq!(
        open_folder_command(TargetOs::MacOs, "/Users/u/a.mp4"),
        Some(("open".to_string(), vec!["-R".to_string(), "/Users/u/a.mp4".to_string()]))
    );
    assert_eq!(
        open_folder_command(TargetOs::Linux, "/home/u/Videos/a.mp4"),
        Some(("xdg-open".to_string(), vec!["/home/u/Videos".to_string()]))
    );
    assert_eq!(
        open_folder_command(TargetOs::Linux, "/"),
        Some(("xdg-open".to_string(), vec!["/".to_string()]))
    );
    assert_eq!(
        open_folder_command(TargetOs::Linux, "a.mp4"),
        Some(("xdg-open".to_string(), vec!["".to_string()]))
    );
    assert_eq!(open_folder_command(TargetOs::Other, "/x"), None);
    assert_eq!(
        reveal_command(TargetOs::Linux, "/x/y", None),
        Some(("xdg-open".to_string(), vec!["/".to_string()]))
    );
}
