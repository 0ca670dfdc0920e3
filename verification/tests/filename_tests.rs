use soundboard::blob::{blob_path_for, path_for};
use soundboard::catalog::SoundRecord;
use soundboard::filename::{split_name, NameParts};
use soundboard::text::{chars_of, find_last, join2, same_text, slice_text};

fn parts(stem: &str, extension: &str) -> Option<NameParts> {
    Some(NameParts { stem: stem.to_string(), extension: extension.to_string() })
}

#[test]
fn plain_name_splits_at_its_dot() {
    assert_eq!(split_name("clip.mp3"), parts("clip", "mp3"));
}

#[test]
fn only_the_last_dot_parts_the_extension() {
    assert_eq!(split_name("archive.tar.gz"), parts("archive.tar", "gz"));
}

#[test]
fn name_without_dot_has_no_extension() {
    assert_eq!(split_name("noext"), None);
}

#[test]
fn leading_dot_is_no_extension() {
    assert_eq!(split_name(".hidden"), None);
}

#[test]
fn hidden_file_with_extension_splits() {
    assert_eq!(split_name(".hidden.ogg"), parts(".hidden", "ogg"));
}

#[test]
fn trailing_dot_gives_the_empty_extension() {
    assert_eq!(split_name("clip."), parts("clip", ""));
}

#[test]
fn directories_are_left_out_of_the_stem() {
    assert_eq!(split_name("some/dir/clip.wav"), parts("clip", "wav"));
}

#[test]
fn dot_in_a_directory_is_no_extension() {
    assert_eq!(split_name("some.dir/clip"), None);
}

#[test]
fn dot_and_dot_dot_name_no_file() {
    assert_eq!(split_name("."), None);
    assert_eq!(split_name(".."), None);
    assert_eq!(split_name("dir/.."), None);
    assert_eq!(split_name("clip.mp3/.."), None);
    assert_eq!(split_name("clip.mp3/../"), None);
    assert_eq!(split_name("./"), None);
    assert_eq!(split_name("./."), None);
}

#[test]
fn empty_name_and_bare_separators_have_no_extension() {
    assert_eq!(split_name(""), None);
    assert_eq!(split_name("/"), None);
    assert_eq!(split_name("//"), None);
    assert_eq!(split_name("/."), None);
}

#[test]
fn trailing_separators_are_passed_over() {
    assert_eq!(split_name("clip.mp3/"), parts("clip", "mp3"));
    assert_eq!(split_name("clip.mp3//"), parts("clip", "mp3"));
    assert_eq!(split_name("dir/clip.mp3//"), parts("clip", "mp3"));
}

#[test]
fn trailing_single_dot_components_are_passed_over() {
    assert_eq!(split_name("clip.mp3/."), parts("clip", "mp3"));
    assert_eq!(split_name("clip.mp3/./"), parts("clip", "mp3"));
    assert_eq!(split_name("clip.mp3/.//./"), parts("clip", "mp3"));
    assert_eq!(split_name("dir/archive.tar.gz/."), parts("archive.tar", "gz"));
}

#[test]
fn trailing_dot_of_a_component_is_no_filler() {
    assert_eq!(split_name("clip./"), parts("clip", ""));
    assert_eq!(split_name("dir/clip."), parts("clip", ""));
    assert_eq!(split_name("noext/"), None);
    assert_eq!(split_name(".hidden/."), None);
}

#[test]
fn three_dots_split_after_the_second() {
    assert_eq!(split_name("..."), parts("..", ""));
}

#[test]
fn names_beyond_ascii_split_by_characters() {
    assert_eq!(split_name("übung.flac"), parts("übung", "flac"));
    assert_eq!(split_name("звук.мп3"), parts("звук", "мп3"));
}

#[test]
fn split_agrees_with_the_standard_library() {
    let names = [
        "clip.mp3",
        "a.b.c",
        "noext",
        ".hidden",
        "x.",
        "dir/clip.webm",
        ".a.b",
        "clip.mp3/",
        "clip.mp3/.",
        "dir/clip.mp3//",
        "clip.mp3/./",
        "clip.mp3/..",
        "some.dir/clip",
        "some.dir/clip/",
        "x./",
        "...",
        ".",
        "..",
        "./",
        "/",
        "",
        "a/./b.c",
        "./a.b",
        ".a.b/.",
    ];
    for name in names {
        let path = std::path::Path::new(name);
        let expected = path.extension().map(|e| e.to_str().unwrap().to_string());
        let got = split_name(name);
        assert_eq!(got.as_ref().map(|p| p.extension.clone()), expected, "{}", name);
        if let Some(p) = got {
            assert_eq!(p.stem, path.file_stem().unwrap().to_str().unwrap(), "{}", name);
        }
    }
}

#[test]
fn path_joins_root_name_and_extension() {
    assert_eq!(blob_path_for("data/audio", "abc", ".mp3"), "data/audio/abc.mp3");
}

#[test]
fn path_adds_no_second_separator() {
    assert_eq!(blob_path_for("data/audio/", "abc", ".mp3"), "data/audio/abc.mp3");
    assert_eq!(blob_path_for("/", "abc", ".mp3"), "/abc.mp3");
}

#[test]
fn path_under_the_empty_root_is_relative() {
    assert_eq!(blob_path_for("", "abc", ".mp3"), "abc.mp3");
}

#[test]
fn path_of_a_record_uses_its_file_name_not_its_display_name() {
    let record = SoundRecord {
        id: "id-1".to_string(),
        file_name: "blob-1".to_string(),
        extension: ".ogg".to_string(),
        file_hash: "hash".to_string(),
        name: "airhorn".to_string(),
    };
    assert_eq!(path_for("data/audio", &record), "data/audio/blob-1.ogg");
}

#[test]
fn path_with_the_bare_dot_extension() {
    assert_eq!(blob_path_for("root", "abc", "."), "root/abc.");
}

#[test]
fn text_helpers_work_on_characters() {
    assert_eq!(chars_of("aé/"), vec!['a', 'é', '/']);
    assert_eq!(find_last(&chars_of("a.b.c"), '.'), Some(3));
    assert_eq!(find_last(&chars_of("abc"), '.'), None);
    assert_eq!(find_last(&chars_of(""), '.'), None);
    assert_eq!(find_last(&chars_of(".abc"), '.'), Some(0));
    assert_eq!(slice_text("héllo", 1, 3), "él");
    assert_eq!(slice_text("héllo", 5, 5), "");
    assert_eq!(join2("ab", "cd"), "abcd");
    assert!(same_text("tags", "tags"));
    assert!(!same_text("tags", "Tags"));
    assert!(!same_text("tags", "tag"));
}
