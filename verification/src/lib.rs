//! A small facility for loading an application's configuration.
//!
//! A configuration type opts into one or more capabilities, each a trait of
//! its own: it can be built from command-line arguments
//! ([`CommandlineConfig`]), from YAML ([`YamlConfig`]) or from JSON
//! ([`JsonConfig`]). A type with both file capabilities is a [`FileConfig`]
//! and can be loaded by a file's extension (see [`files`]).
//!
//! The library works on the text of a file and never opens one, and it keeps
//! no state between calls.

use vstd::prelude::*;
use serde_json::Value;
use yaml_rust::Yaml;

pub mod documents;
pub mod files;
pub mod quick;

verus! {

/// A configuration that can be built from the arguments a program was run
/// with.
pub trait CommandlineConfig: Sized {
    /// Builds the configuration from the arguments.
    ///
    /// There is no precondition: every list of arguments, the empty one
    /// included, yields a configuration. What becomes of an argument that
    /// the type does not know is for the type to decide.
    fn from_env_args(args: Vec<String>) -> Self;
}

/// Whatever type builds its configuration from arguments accepts every list
/// of arguments, the empty one included.
pub proof fn law_every_argument_list_is_accepted<T: CommandlineConfig>(args: Vec<String>)
    ensures
        call_requires(T::from_env_args, (args,)),
{
}

/// A configuration that can be built from the documents of a YAML file and
/// written back as YAML text.
pub trait YamlConfig: Sized {
    /// Builds the configuration from the documents of one file, in the order
    /// in which the file holds them.
    ///
    /// The list holds at least one document. Which fields the documents must
    /// hold is for the type to decide; the library hands on whatever the
    /// parser made of the file.
    fn from_yaml(yaml: Vec<Yaml>) -> Self
        requires
            yaml@.len() > 0,
    ;

    /// The YAML text that stands for this configuration: what is written to
    /// a file when the configuration is saved, and what `from_yaml` is meant
    /// to read back.
    fn save_yaml_text(&self) -> String;
}

/// A configuration that can be built from one JSON value and written back as
/// JSON text.
pub trait JsonConfig: Sized {
    /// Builds the configuration from the value that a JSON file holds.
    ///
    /// Which fields the value must hold is for the type to decide; the
    /// library hands on whatever the parser made of the file.
    fn from_json(val: Value) -> Self;

    /// The JSON text that stands for this configuration: what is written to
    /// a file when the configuration is saved, and what `from_json` is meant
    /// to read back.
    fn save_json_text(&self) -> String;
}

/// A configuration that can be loaded from every kind of file that the
/// library knows. The trait adds nothing of its own.
pub trait FileConfig: YamlConfig + JsonConfig {
}

} // verus!
