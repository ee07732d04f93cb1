//! Loading a configuration from the text of a file, by the file's extension.

use vstd::prelude::*;
use vstd::std_specs::iter::IteratorSpec;
use serde_json::Value;
use yaml_rust::{ScanError, Yaml};
use crate::documents::{json_value, parse_json, parse_yaml, yaml_documents};
use crate::{FileConfig, JsonConfig, YamlConfig};

verus! {

/// The kinds of file that a configuration can be loaded from.
#[derive(Clone, Copy, Debug, PartialEq, Eq, Structural)]
pub enum FileKind {
    /// A YAML file: one or more documents.
    Yaml,
    /// A JSON file: a single value.
    Json,
}

/// The index at which the extension of `path` begins: just behind the last
/// `.` of the path, or 0 where the path holds none.
pub open spec fn extension_start(path: Seq<char>) -> int
    decreases path.len(),
{
    if path.len() == 0 {
        0
    } else if path.last() == '.' {
        path.len() as int
    } else {
        extension_start(path.drop_last())
    }
}

/// The extension of `path`: what stands behind its last `.`, and the whole
/// path where it holds none.
pub open spec fn extension(path: Seq<char>) -> Seq<char> {
    path.subrange(extension_start(path), path.len() as int)
}

/// The kind of file that an extension stands for. The comparison is exact:
/// letters of another case do not match.
pub open spec fn extension_kind(ext: Seq<char>) -> Option<FileKind> {
    if ext == seq!['y', 'a', 'm', 'l'] || ext == seq!['y', 'm', 'l'] {
        Some(FileKind::Yaml)
    } else if ext == seq!['j', 's', 'o', 'n'] {
        Some(FileKind::Json)
    } else {
        None
    }
}

/// The kind of the file at `path`, decided by the extension alone.
pub open spec fn file_kind(path: Seq<char>) -> Option<FileKind> {
    extension_kind(extension(path))
}

/// The extension begins inside the path, and no `.` stands at or behind
/// its beginning; where it does not begin at 0, a `.` stands just before it.
pub proof fn lemma_extension_start(path: Seq<char>)
    ensures
        0 <= extension_start(path) <= path.len(),
        forall|i: int| extension_start(path) <= i < path.len() ==> path[i] != '.',
        extension_start(path) > 0 ==> path[extension_start(path) - 1] == '.',
    decreases path.len(),
{
    if path.len() > 0 && path.last() != '.' {
        let front = path.drop_last();
        lemma_extension_start(front);
        assert forall|i: int| extension_start(path) <= i < path.len() implies path[i] != '.' by {
            if i < front.len() {
                assert(path[i] == front[i]);
            }
        }
    }
}

/// The extension of a path holds no `.`, and the path is either the
/// extension alone or a stem, a `.` and the extension.
pub proof fn law_extension_is_last_segment(path: Seq<char>)
    ensures
        !extension(path).contains('.'),
        extension_start(path) == 0 ==> extension(path) == path,
        extension_start(path) > 0 ==> path == path.take(extension_start(path) - 1) + seq!['.']
            + extension(path),
{
    lemma_extension_start(path);
    let start = extension_start(path);
    if start == 0 {
        assert(extension(path) =~= path);
    } else {
        assert(path =~= path.take(start - 1) + seq!['.'] + extension(path));
    }
}

/// A path without a `.` is its own extension.
pub proof fn law_path_without_dot(path: Seq<char>)
    requires
        !path.contains('.'),
    ensures
        extension(path) == path,
        file_kind(path) == extension_kind(path),
{
    lemma_extension_start(path);
    let start = extension_start(path);
    if start > 0 {
        assert(path.contains(path[start - 1]));
    }
    assert(extension(path) =~= path);
}

/// Behind a stem and a `.`, a segment without a `.` is the extension,
/// whatever the stem holds.
pub proof fn law_extension_of_joined(stem: Seq<char>, ext: Seq<char>)
    requires
        !ext.contains('.'),
    ensures
        extension(stem + seq!['.'] + ext) == ext,
        file_kind(stem + seq!['.'] + ext) == extension_kind(ext),
{
    let path = stem + seq!['.'] + ext;
    lemma_extension_start(path);
    let start = extension_start(path);
    let dot = stem.len() as int;
    assert(path[dot] == '.');
    if start > dot + 1 {
        assert(ext.contains(ext[start - dot - 2]));
    }
    assert(extension(path) =~= ext);
}

/// Behind any stem, `.yaml` and `.yml` stand for a YAML file and `.json`
/// for a JSON file.
pub proof fn law_known_extensions(stem: Seq<char>)
    ensures
        file_kind(stem + seq!['.', 'y', 'a', 'm', 'l']) == Some(FileKind::Yaml),
        file_kind(stem + seq!['.', 'y', 'm', 'l']) == Some(FileKind::Yaml),
        file_kind(stem + seq!['.', 'j', 's', 'o', 'n']) == Some(FileKind::Json),
{
    let yaml = seq!['y', 'a', 'm', 'l'];
    let yml = seq!['y', 'm', 'l'];
    let json = seq!['j', 's', 'o', 'n'];
    law_extension_of_joined(stem, yaml);
    law_extension_of_joined(stem, yml);
    law_extension_of_joined(stem, json);
    assert(stem + seq!['.', 'y', 'a', 'm', 'l'] =~= stem + seq!['.'] + yaml);
    assert(stem + seq!['.', 'y', 'm', 'l'] =~= stem + seq!['.'] + yml);
    assert(stem + seq!['.', 'j', 's', 'o', 'n'] =~= stem + seq!['.'] + json);
}

/// The extension of `path`, as a slice of it.
pub fn extension_of(path: &str) -> (ext: &str)
    ensures
        ext@ == extension(path@),
{
    let len = path.unicode_len();
    let mut rest = path.chars();
    let mut seen: usize = 0;
    let mut start: usize = 0;
    assert(path@.skip(0) =~= path@);
    loop
        invariant
            len == path@.len(),
            start <= seen <= len,
            rest.remaining() == path@.skip(seen as int),
            start == extension_start(path@.take(seen as int)),
        ensures
            seen == len,
        decreases len - seen,
    {
        match rest.next() {
            Some(c) => {
                assert(path@.take(seen + 1).drop_last() =~= path@.take(seen as int));
                assert(path@.skip(seen as int).drop_first() =~= path@.skip(seen + 1));
                seen = seen + 1;
                if c == '.' {
                    start = seen;
                }
            },
            None => {
                break ;
            },
        }
    }
    assert(path@.take(len as int) =~= path@);
    path.substring_char(start, len)
}

/// The kind of file that `ext` stands for, if the library knows it.
pub fn kind_of_extension(ext: &str) -> (kind: Option<FileKind>)
    ensures
        kind == extension_kind(ext@),
{
    let len = ext.unicode_len();
    if len == 4 && ext.get_char(0) == 'y' && ext.get_char(1) == 'a' && ext.get_char(2) == 'm'
        && ext.get_char(3) == 'l' {
        assert(ext@ =~= seq!['y', 'a', 'm', 'l']);
        Some(FileKind::Yaml)
    } else if len == 3 && ext.get_char(0) == 'y' && ext.get_char(1) == 'm' && ext.get_char(2)
        == 'l' {
        assert(ext@ =~= seq!['y', 'm', 'l']);
        Some(FileKind::Yaml)
    } else if len == 4 && ext.get_char(0) == 'j' && ext.get_char(1) == 's' && ext.get_char(2)
        == 'o' && ext.get_char(3) == 'n' {
        assert(ext@ =~= seq!['j', 's', 'o', 'n']);
        Some(FileKind::Json)
    } else {
        None
    }
}

/// The kind of the file at `path`, if its extension is one that the library
/// knows. Nothing but the extension is looked at.
pub fn file_kind_of(path: &str) -> (kind: Option<FileKind>)
    ensures
        kind == file_kind(path@),
{
    kind_of_extension(extension_of(path))
}

/// Whether `config` is a value that `T::from_yaml` may return for the
/// documents `docs`.
pub open spec fn built_from_yaml<T: YamlConfig>(docs: Seq<Yaml>, config: T) -> bool {
    exists|yaml: Vec<Yaml>| yaml@ == docs && call_ensures(T::from_yaml, (yaml,), config)
}

/// Whether `config` is a value that `T::from_json` may return for the
/// value `val`.
pub open spec fn built_from_json<T: JsonConfig>(val: Value, config: T) -> bool {
    call_ensures(T::from_json, (val,), config)
}

/// Whether `text` is YAML that a configuration can be built from: it parses,
/// and into at least one document.
pub open spec fn yaml_loadable(text: Seq<char>) -> bool {
    yaml_documents(text) matches Some(docs) && docs.len() > 0
}

/// Whether `text` is JSON that a configuration can be built from: it parses.
pub open spec fn json_loadable(text: Seq<char>) -> bool {
    json_value(text) is Some
}

/// Whether a configuration can be built from `text`, read as a file of the
/// kind `kind`.
pub open spec fn loadable(kind: FileKind, text: Seq<char>) -> bool {
    match kind {
        FileKind::Yaml => yaml_loadable(text),
        FileKind::Json => json_loadable(text),
    }
}

/// Whether `config` is a value that `T` may build from `text`, read as a
/// file of the kind `kind`.
pub open spec fn loaded_from<T: FileConfig>(kind: FileKind, text: Seq<char>, config: T) -> bool {
    match kind {
        FileKind::Yaml => built_from_yaml(yaml_documents(text).unwrap(), config),
        FileKind::Json => built_from_json(json_value(text).unwrap(), config),
    }
}

/// Builds a configuration from what the YAML parser made of a file: from
/// its documents where there is at least one, and none where the parser
/// failed or found no document.
pub fn config_from_yaml<T: YamlConfig>(parsed: Result<Vec<Yaml>, ScanError>) -> (config: Option<T>)
    ensures
        match parsed {
            Ok(docs) => if docs@.len() > 0 {
                config matches Some(c) && built_from_yaml(docs@, c)
            } else {
                config is None
            },
            Err(_) => config is None,
        },
{
    match parsed {
        Ok(docs) => {
            if docs.len() > 0 {
                Some(T::from_yaml(docs))
            } else {
                None
            }
        },
        Err(_) => None,
    }
}

/// Builds a configuration from what the JSON parser made of a file: from
/// its value, and none where the parser failed.
pub fn config_from_json<T: JsonConfig>(parsed: Result<Value, serde_json::Error>) -> (config: Option<T>)
    ensures
        match parsed {
            Ok(val) => config matches Some(c) && built_from_json(val, c),
            Err(_) => config is None,
        },
{
    match parsed {
        Ok(val) => Some(T::from_json(val)),
        Err(_) => None,
    }
}

/// Whether a configuration can be built from `data`, read as a file of the
/// kind `kind`.
pub fn parses_as(kind: FileKind, data: &str) -> (ok: bool)
    ensures
        ok == loadable(kind, data@),
{
    match kind {
        FileKind::Yaml => match parse_yaml(data) {
            Ok(docs) => docs.len() > 0,
            Err(_) => false,
        },
        FileKind::Json => parse_json(data).is_ok(),
    }
}

/// Builds a configuration from the text `data` of a YAML file: parses the
/// text and hands all its documents to `T::from_yaml`.
///
/// The text must be YAML and hold at least one document; `parses_as` tells
/// whether it does, and `try_load_from_yaml` asks for nothing.
pub fn load_from_yaml<T: YamlConfig>(data: &str) -> (config: T)
    requires
        yaml_loadable(data@),
    ensures
        built_from_yaml(yaml_documents(data@).unwrap(), config),
{
    config_from_yaml(parse_yaml(data)).unwrap()
}

/// Builds a configuration from the text `data` of a JSON file: parses the
/// text and hands its value to `T::from_json`.
///
/// The text must be JSON; `parses_as` tells whether it is, and
/// `try_load_from_json` asks for nothing.
pub fn load_from_json<T: JsonConfig>(data: &str) -> (config: T)
    requires
        json_loadable(data@),
    ensures
        built_from_json(json_value(data@).unwrap(), config),
{
    config_from_json(parse_json(data)).unwrap()
}

/// Builds a configuration from the text `data` of the file at `path`, read
/// as the kind of file that the path's extension stands for. An extension
/// that stands for no kind is an error, whatever the text holds; the text is
/// never looked at to guess the kind.
///
/// Where the extension stands for a kind, the text must be loadable as that
/// kind; `try_load_from_file` asks for nothing.
pub fn load_from_file<T: FileConfig>(path: &str, data: &str) -> (loaded: Result<T, ()>)
    requires
        file_kind(path@) matches Some(kind) ==> loadable(kind, data@),
    ensures
        match file_kind(path@) {
            Some(kind) => loaded matches Ok(config) && loaded_from(kind, data@, config),
            None => loaded is Err,
        },
{
    match file_kind_of(path) {
        Some(FileKind::Yaml) => Ok(load_from_yaml(data)),
        Some(FileKind::Json) => Ok(load_from_json(data)),
        None => Err(()),
    }
}

/// Builds a configuration from the text of a YAML file, or none where the
/// text does not parse or holds no document. The text is parsed once to
/// decide and once more to build.
pub fn try_load_from_yaml<T: YamlConfig>(data: &str) -> (config: Option<T>)
    ensures
        config is Some <==> yaml_loadable(data@),
        config matches Some(c) ==> built_from_yaml(yaml_documents(data@).unwrap(), c),
{
    if parses_as(FileKind::Yaml, data) {
        Some(load_from_yaml(data))
    } else {
        None
    }
}

/// Builds a configuration from the text of a JSON file, or none where the
/// text does not parse. The text is parsed once to decide and once more to
/// build.
pub fn try_load_from_json<T: JsonConfig>(data: &str) -> (config: Option<T>)
    ensures
        config is Some <==> json_loadable(data@),
        config matches Some(c) ==> built_from_json(json_value(data@).unwrap(), c),
{
    if parses_as(FileKind::Json, data) {
        Some(load_from_json(data))
    } else {
        None
    }
}

/// Builds a configuration from the text `data` of the file at `path`. An
/// extension that stands for no kind is an error; text that cannot be read
/// as the kind that the extension stands for yields no configuration.
pub fn try_load_from_file<T: FileConfig>(path: &str, data: &str) -> (loaded: Result<Option<T>, ()>)
    ensures
        match file_kind(path@) {
            Some(kind) => match loaded {
                Ok(Some(config)) => loadable(kind, data@) && loaded_from(kind, data@, config),
                Ok(None) => !loadable(kind, data@),
                Err(_) => false,
            },
            None => loaded is Err,
        },
{
    match file_kind_of(path) {
        Some(kind) => {
            if parses_as(kind, data) {
                match load_from_file(path, data) {
                    Ok(config) => Ok(Some(config)),
                    Err(e) => Err(e),
                }
            } else {
                Ok(None)
            }
        },
        None => Err(()),
    }
}

} // verus!
