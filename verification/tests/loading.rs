use wren::loader::choose_module_source;
use wren::loader::module_dir_file_path;
use wren::loader::module_file_path;

#[test]
fn loader_paths() {
    assert_eq!(module_file_path("foo"), Vec::from("foo.wren".as_bytes()));
    assert_eq!(module_dir_file_path("foo"), Vec::from("foo/module.wren".as_bytes()));
    assert_eq!(module_file_path("dir/bar"), Vec::from("dir/bar.wren".as_bytes()));
}

#[test]
fn loader_prefers_the_file() {
    let primary = Some(String::from("var a = 1"));
    let fallback = Some(String::from("var b = 2"));
    assert_eq!(choose_module_source(primary, fallback), Some(String::from("var a = 1")));
}

#[test]
fn loader_falls_back_to_the_directory_module() {
    let fallback = Some(String::from("var b = 2"));
    assert_eq!(choose_module_source(None, fallback), Some(String::from("var b = 2")));
}

#[test]
fn loader_reports_a_missing_module_as_absent() {
    assert_eq!(choose_module_source(None, None), None);
}

#[test]
fn loader_accepts_empty_source() {
    assert_eq!(choose_module_source(Some(String::new()), None), Some(String::new()));
}
