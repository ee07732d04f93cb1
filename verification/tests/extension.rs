use rsconfig::files::{extension_of, file_kind_of, kind_of_extension, FileKind};

#[test]
fn extension_is_what_follows_the_last_dot() {
    assert_eq!(extension_of("cfg.yaml"), "yaml");
    assert_eq!(extension_of("testing\\test.yml"), "yml");
    assert_eq!(extension_of("archive.tar.gz"), "gz");
    assert_eq!(extension_of("dir.d/file"), "d/file");
    assert_eq!(extension_of(".hidden"), "hidden");
}

#[test]
fn extension_of_a_path_without_dot_is_the_path() {
    assert_eq!(extension_of("noextension"), "noextension");
    assert_eq!(extension_of("yaml"), "yaml");
    assert_eq!(extension_of(""), "");
}

#[test]
fn extension_behind_a_final_dot_is_empty() {
    assert_eq!(extension_of("cfg."), "");
    assert_eq!(extension_of("."), "");
    assert_eq!(extension_of("cfg.yaml.."), "");
}

#[test]
fn extension_agrees_with_splitting_on_dots() {
    for path in ["cfg.yaml", "a.b.c", "", ".", "..", "a.", ".a", "plain", "x.y.json", "é.yml"] {
        assert_eq!(extension_of(path), path.split(".").last().unwrap());
    }
}

#[test]
fn extension_counts_characters_not_bytes() {
    assert_eq!(extension_of("配置.yaml"), "yaml");
    assert_eq!(extension_of("cfg.données"), "données");
    assert_eq!(file_kind_of("配置.文件.json"), Some(FileKind::Json));
    assert_eq!(file_kind_of("cfg.ÿaml"), None);
}

#[test]
fn known_extensions() {
    assert_eq!(kind_of_extension("yaml"), Some(FileKind::Yaml));
    assert_eq!(kind_of_extension("yml"), Some(FileKind::Yaml));
    assert_eq!(kind_of_extension("json"), Some(FileKind::Json));
}

#[test]
fn unknown_extensions() {
    for ext in ["", "toml", "YAML", "Yml", "JSON", "yam", "yamll", "jso", "jsonc", "ym", "y", " yml", "yml "] {
        assert_eq!(kind_of_extension(ext), None);
    }
}

#[test]
fn kind_of_a_path() {
    assert_eq!(file_kind_of("cfg.yaml"), Some(FileKind::Yaml));
    assert_eq!(file_kind_of("cfg.yml"), Some(FileKind::Yaml));
    assert_eq!(file_kind_of("cfg.json"), Some(FileKind::Json));
    assert_eq!(file_kind_of("cfg.toml"), None);
    assert_eq!(file_kind_of("noextension"), None);
    assert_eq!(file_kind_of("json"), Some(FileKind::Json));
    assert_eq!(file_kind_of("cfg.json/readme"), None);
}
