//! The two stages of loading a configuration: reading it from YAML, and
//! laying a JSON override over it.
//!
//! The library holds no file or environment access of its own. Its caller
//! hands it what the read of the file gave and what the override variable
//! held, together with the three conversions of the configuration type:
//! from YAML text, to a JSON document, and back from one. What a conversion
//! returns is up to the configuration type; the contracts here say what is
//! done with each thing it may return.

use vstd::prelude::*;
use crate::error::LoadConfigError;
use crate::json::{json_parsing, merge_override, overridden, parse_json, value_fields};

verus! {

/// A type that can be loaded from a configuration file.
pub trait ConfigFile: 'static {
    /// The file to load the configuration from, relative to the working
    /// directory of the process.
    const PATH: &'static str;
}

/// How the outcome of YAML decoding is reported.
pub open spec fn yaml_outcome<T>(parsed: Result<T, serde_yaml::Error>) -> Result<
    T,
    LoadConfigError,
> {
    match parsed {
        Ok(config) => Ok(config),
        Err(error) => Err(LoadConfigError::Yaml(error)),
    }
}

/// How the outcome of a JSON conversion is reported.
pub open spec fn json_outcome<T>(converted: Result<T, serde_json::Error>) -> Result<
    T,
    LoadConfigError,
> {
    match converted {
        Ok(value) => Ok(value),
        Err(error) => Err(LoadConfigError::Json(error)),
    }
}

/// `outcome` is a result of loading from `file` with the decoder `from_yaml`:
/// a failed read is reported as it is, and a text that was read is decoded.
pub open spec fn loads<T, Y: FnOnce(String) -> Result<T, serde_yaml::Error>>(
    file: Result<String, std::io::Error>,
    from_yaml: Y,
    outcome: Result<T, LoadConfigError>,
) -> bool {
    match file {
        Err(error) => outcome == Err::<T, LoadConfigError>(LoadConfigError::Io(error)),
        Ok(text) => exists|parsed: Result<T, serde_yaml::Error>| #[trigger]
            call_ensures(from_yaml, (text,), parsed) && outcome == yaml_outcome(parsed),
    }
}

/// `outcome` is a result of decoding the document `base` under the override
/// `patch`: the two are merged, and the merged document is decoded.
pub open spec fn decodes<T, D: FnOnce(serde_json::Value) -> Result<T, serde_json::Error>>(
    base: serde_json::Value,
    patch: serde_json::Value,
    from_json: D,
    outcome: Result<T, LoadConfigError>,
) -> bool {
    exists|merged: serde_json::Value, decoded: Result<T, serde_json::Error>|
        overridden(base, patch, merged) && #[trigger] call_ensures(from_json, (merged,), decoded)
            && outcome == json_outcome(decoded)
}

/// `outcome` is a result of laying the document `patch` over the
/// configuration `base`: the configuration is encoded, and if that succeeds
/// the override is merged in and the result decoded.
pub open spec fn patches<
    T,
    E: FnOnce(&T) -> Result<serde_json::Value, serde_json::Error>,
    D: FnOnce(serde_json::Value) -> Result<T, serde_json::Error>,
>(
    base: T,
    patch: serde_json::Value,
    to_json: E,
    from_json: D,
    outcome: Result<T, LoadConfigError>,
) -> bool {
    exists|encoded: Result<serde_json::Value, serde_json::Error>| #[trigger]
        call_ensures(to_json, (&base,), encoded) && match encoded {
            Err(error) => outcome == Err::<T, LoadConfigError>(LoadConfigError::Json(error)),
            Ok(document) => decodes(document, patch, from_json, outcome),
        }
}

/// `outcome` is a result of applying the override text, if there is one, to
/// the configuration `base`. Without an override the configuration stays as
/// it is. An override that is not JSON is an error, and nothing of `base` is
/// returned.
pub open spec fn overrides<
    T,
    E: FnOnce(&T) -> Result<serde_json::Value, serde_json::Error>,
    D: FnOnce(serde_json::Value) -> Result<T, serde_json::Error>,
>(
    base: T,
    override_text: Option<String>,
    to_json: E,
    from_json: D,
    outcome: Result<T, LoadConfigError>,
) -> bool {
    match override_text {
        None => outcome == Ok::<T, LoadConfigError>(base),
        Some(text) => match json_parsing(text@) {
            Err(error) => outcome == Err::<T, LoadConfigError>(LoadConfigError::Json(error)),
            Ok(patch) => patches(base, patch, to_json, from_json, outcome),
        },
    }
}

/// `outcome` is a result of the whole pipeline: load, then override. The
/// first failure is the outcome.
pub open spec fn resolves<
    T,
    Y: FnOnce(String) -> Result<T, serde_yaml::Error>,
    E: FnOnce(&T) -> Result<serde_json::Value, serde_json::Error>,
    D: FnOnce(serde_json::Value) -> Result<T, serde_json::Error>,
>(
    file: Result<String, std::io::Error>,
    override_text: Option<String>,
    from_yaml: Y,
    to_json: E,
    from_json: D,
    outcome: Result<T, LoadConfigError>,
) -> bool {
    exists|loaded: Result<T, LoadConfigError>| #[trigger]
        loads(file, from_yaml, loaded) && match loaded {
            Err(error) => outcome == Err::<T, LoadConfigError>(error),
            Ok(base) => overrides(base, override_text, to_json, from_json, outcome),
        }
}

/// `outcome` is a result of encoding the configuration `base` and decoding
/// the very document that the encoding gave.
pub open spec fn reencodes<
    T,
    E: FnOnce(&T) -> Result<serde_json::Value, serde_json::Error>,
    D: FnOnce(serde_json::Value) -> Result<T, serde_json::Error>,
>(base: T, to_json: E, from_json: D, outcome: Result<T, LoadConfigError>) -> bool {
    exists|encoded: Result<serde_json::Value, serde_json::Error>| #[trigger]
        call_ensures(to_json, (&base,), encoded) && match encoded {
            Err(error) => outcome == Err::<T, LoadConfigError>(LoadConfigError::Json(error)),
            Ok(document) => exists|decoded: Result<T, serde_json::Error>| #[trigger]
                call_ensures(from_json, (document,), decoded) && outcome == json_outcome(decoded),
        }
}

/// Without an override the pipeline gives exactly what loading alone gives.
pub proof fn lemma_no_override_is_load<
    T,
    Y: FnOnce(String) -> Result<T, serde_yaml::Error>,
    E: FnOnce(&T) -> Result<serde_json::Value, serde_json::Error>,
    D: FnOnce(serde_json::Value) -> Result<T, serde_json::Error>,
>(
    file: Result<String, std::io::Error>,
    from_yaml: Y,
    to_json: E,
    from_json: D,
    outcome: Result<T, LoadConfigError>,
)
    ensures
        resolves(file, None, from_yaml, to_json, from_json, outcome) <==> loads(
            file,
            from_yaml,
            outcome,
        ),
{
    if resolves(file, None, from_yaml, to_json, from_json, outcome) {
        let loaded = choose|loaded: Result<T, LoadConfigError>| #[trigger]
            loads(file, from_yaml, loaded) && match loaded {
                Err(error) => outcome == Err::<T, LoadConfigError>(error),
                Ok(base) => overrides(base, None, to_json, from_json, outcome),
            };
        assert(loaded == outcome);
    }
    if loads(file, from_yaml, outcome) {
        assert(match outcome {
            Err(error) => outcome == Err::<T, LoadConfigError>(error),
            Ok(base) => overrides(base, None, to_json, from_json, outcome),
        });
    }
}

/// An override that is not JSON fails the load, whatever the file held: no
/// configuration is produced, and when the base was loaded the error is the
/// JSON parser's.
pub proof fn lemma_malformed_override_fails<
    T,
    Y: FnOnce(String) -> Result<T, serde_yaml::Error>,
    E: FnOnce(&T) -> Result<serde_json::Value, serde_json::Error>,
    D: FnOnce(serde_json::Value) -> Result<T, serde_json::Error>,
>(
    file: Result<String, std::io::Error>,
    text: String,
    from_yaml: Y,
    to_json: E,
    from_json: D,
    outcome: Result<T, LoadConfigError>,
)
    requires
        json_parsing(text@) is Err,
        resolves(file, Some(text), from_yaml, to_json, from_json, outcome),
    ensures
        outcome is Err,
        forall|base: T|
            loads(file, from_yaml, Ok(base)) ==> #[trigger] overrides(
                base,
                Some(text),
                to_json,
                from_json,
                outcome,
            ) ==> outcome == Err::<T, LoadConfigError>(
                LoadConfigError::Json(json_parsing(text@)->Err_0),
            ),
{
}

/// A file that could not be read fails the load with that I/O error, never
/// with a parse error; and a file that was read never gives an I/O error.
pub proof fn lemma_io_error_iff_unread<
    T,
    Y: FnOnce(String) -> Result<T, serde_yaml::Error>,
    E: FnOnce(&T) -> Result<serde_json::Value, serde_json::Error>,
    D: FnOnce(serde_json::Value) -> Result<T, serde_json::Error>,
>(
    file: Result<String, std::io::Error>,
    override_text: Option<String>,
    from_yaml: Y,
    to_json: E,
    from_json: D,
    outcome: Result<T, LoadConfigError>,
)
    requires
        resolves(file, override_text, from_yaml, to_json, from_json, outcome),
    ensures
        match file {
            Err(error) => outcome == Err::<T, LoadConfigError>(LoadConfigError::Io(error)),
            Ok(_) => !(outcome matches Err(LoadConfigError::Io(_))),
        },
{
}

/// An override that is JSON but not an object is no override: the outcome is
/// that of encoding the base and decoding the same document again.
pub proof fn lemma_non_object_override<
    T,
    E: FnOnce(&T) -> Result<serde_json::Value, serde_json::Error>,
    D: FnOnce(serde_json::Value) -> Result<T, serde_json::Error>,
>(base: T, text: String, to_json: E, from_json: D, outcome: Result<T, LoadConfigError>)
    requires
        json_parsing(text@) matches Ok(patch) && value_fields(patch) is None,
        overrides(base, Some(text), to_json, from_json, outcome),
    ensures
        reencodes(base, to_json, from_json, outcome),
{
    let patch = json_parsing(text@)->Ok_0;
    let encoded = choose|encoded: Result<serde_json::Value, serde_json::Error>| #[trigger]
        call_ensures(to_json, (&base,), encoded) && match encoded {
            Err(error) => outcome == Err::<T, LoadConfigError>(LoadConfigError::Json(error)),
            Ok(document) => decodes(document, patch, from_json, outcome),
        };
    if let Ok(document) = encoded {
        let (merged, decoded) = choose|
            merged: serde_json::Value,
            decoded: Result<T, serde_json::Error>,
        |
            overridden(document, patch, merged) && #[trigger] call_ensures(
                from_json,
                (merged,),
                decoded,
            ) && outcome == json_outcome(decoded);
        assert(merged == document);
        assert(call_ensures(from_json, (document,), decoded));
    }
}

/// Reports the outcome of YAML decoding.
pub fn classify_yaml<T>(parsed: Result<T, serde_yaml::Error>) -> (outcome: Result<
    T,
    LoadConfigError,
>)
    ensures
        outcome == yaml_outcome(parsed),
{
    match parsed {
        Ok(config) => Ok(config),
        Err(error) => Err(LoadConfigError::Yaml(error)),
    }
}

/// Reports the outcome of a JSON conversion.
pub fn classify_json<T>(converted: Result<T, serde_json::Error>) -> (outcome: Result<
    T,
    LoadConfigError,
>)
    ensures
        outcome == json_outcome(converted),
{
    match converted {
        Ok(value) => Ok(value),
        Err(error) => Err(LoadConfigError::Json(error)),
    }
}

/// Loads a configuration from what reading its file gave.
pub fn load<T, Y>(file: Result<String, std::io::Error>, from_yaml: Y) -> (outcome: Result<
    T,
    LoadConfigError,
>) where Y: FnOnce(String) -> Result<T, serde_yaml::Error>
    requires
        forall|text: String| call_requires(from_yaml, (text,)),
    ensures
        loads(file, from_yaml, outcome),
{
    match file {
        Err(error) => Err(LoadConfigError::Io(error)),
        Ok(text) => classify_yaml(from_yaml(text)),
    }
}

/// Applies the content of the override variable, if it was set, to a loaded
/// configuration.
pub fn apply_override<T, E, D>(
    base: T,
    override_text: Option<String>,
    to_json: E,
    from_json: D,
) -> (outcome: Result<T, LoadConfigError>) where
    E: FnOnce(&T) -> Result<serde_json::Value, serde_json::Error>,
    D: FnOnce(serde_json::Value) -> Result<T, serde_json::Error>,

    requires
        forall|config: &T| call_requires(to_json, (config,)),
        forall|document: serde_json::Value| call_requires(from_json, (document,)),
    ensures
        overrides(base, override_text, to_json, from_json, outcome),
{
    let text = match override_text {
        None => {
            return Ok(base);
        },
        Some(text) => text,
    };
    let patch = match parse_json(text.as_str()) {
        Ok(patch) => patch,
        Err(error) => {
            return Err(LoadConfigError::Json(error));
        },
    };
    let document = match to_json(&base) {
        Ok(document) => document,
        Err(error) => {
            return Err(LoadConfigError::Json(error));
        },
    };
    let merged = merge_override(document, patch);
    classify_json(from_json(merged))
}

/// Loads a configuration from what reading its file gave, then applies the
/// content of the override variable, if it was set.
pub fn load_config_file<T, Y, E, D>(
    file: Result<String, std::io::Error>,
    override_text: Option<String>,
    from_yaml: Y,
    to_json: E,
    from_json: D,
) -> (outcome: Result<T, LoadConfigError>) where
    T: ConfigFile,
    Y: FnOnce(String) -> Result<T, serde_yaml::Error>,
    E: FnOnce(&T) -> Result<serde_json::Value, serde_json::Error>,
    D: FnOnce(serde_json::Value) -> Result<T, serde_json::Error>,

    requires
        forall|text: String| call_requires(from_yaml, (text,)),
        forall|config: &T| call_requires(to_json, (config,)),
        forall|document: serde_json::Value| call_requires(from_json, (document,)),
    ensures
        resolves(file, override_text, from_yaml, to_json, from_json, outcome),
{
    match load(file, from_yaml) {
        Err(error) => Err(error),
        Ok(base) => apply_override(base, override_text, to_json, from_json),
    }
}

} // verus!
