use vstd::prelude::*;

use crate::path::{
    contains_char, extension_of, path_extension, path_with_extension, plain_extension, with_extension,
};
use crate::pattern::{pattern_compiles, pattern_matches, Pattern};

verus! {

/// The pattern of the JS-to-JSX preset: a slash, word characters, then `>`, as in
/// the closing tag `</div>`.
pub const CLOSING_TAG: &'static str = "/\\w*>";

/// The presets an invocation can name instead of its own pattern and extension.
#[derive(Clone, Copy, Debug, PartialEq, Eq, Structural)]
pub enum Modo {
    /// `.js` files with a closing tag in them become `.jsx`.
    JsAJsx,
    /// Every `.jsx` file becomes `.js`, whatever it holds.
    JsxAJs,
}

/// Why an invocation does not resolve to a configuration.
#[derive(Clone, Copy, Debug, PartialEq, Eq, Structural)]
pub enum ConfigError {
    /// A preset was named together with a pattern or an extension.
    Conflict,
    /// Neither a preset nor a pattern was given.
    MissingRegex,
    /// The pattern is not one the regex crate accepts.
    InvalidRegex,
    /// A pattern was given without the extension to give the files.
    MissingExtension,
    /// The extension to give the files holds a path separator.
    InvalidExtension,
}

/// What one run does: which files it considers, what it looks for in them, and the
/// extension it gives them.
pub enum Config {
    /// `.js` files with a line that `pattern` matches become `.jsx`.
    JsAJsx { pattern: Pattern },
    /// `.jsx` files become `.js` without being read.
    JsxAJs,
    /// Files of any extension with a line that `pattern` matches get `extension`.
    Custom { pattern: Pattern, extension: String },
}

pub open spec fn js() -> Seq<char> {
    seq!['j', 's']
}

pub open spec fn jsx() -> Seq<char> {
    seq!['j', 's', 'x']
}

impl Config {
    /// The pattern of each variant is the one it stands for, and the extension
    /// it gives is one that a path can take.
    pub open spec fn wf(&self) -> bool {
        match self {
            Config::JsAJsx { pattern } => pattern.source() == CLOSING_TAG@,
            Config::JsxAJs => true,
            Config::Custom { extension, .. } => !extension@.contains('/'),
        }
    }

    /// The extension that selected files are given.
    pub open spec fn spec_target_extension(&self) -> Seq<char> {
        match self {
            Config::JsAJsx { .. } => jsx(),
            Config::JsxAJs => js(),
            Config::Custom { extension, .. } => extension@,
        }
    }

    /// Whether a file must hold a matching line to be selected.
    pub open spec fn spec_require_match(&self) -> bool {
        !(self is JsxAJs)
    }

    /// The only extension a file may have to be considered, if there is one.
    pub open spec fn spec_extension_filter(&self) -> Option<Seq<char>> {
        match self {
            Config::JsAJsx { .. } => Some(js()),
            Config::JsxAJs => Some(jsx()),
            Config::Custom { .. } => None,
        }
    }

    /// Whether a file at `path` passes the extension filter.
    pub open spec fn spec_admits(&self, path: Seq<char>) -> bool {
        match self.spec_extension_filter() {
            Some(f) => path_extension(path) == Some(f),
            None => true,
        }
    }

    /// Whether `line` is one that selects the file it stands in.
    pub open spec fn spec_line_selects(&self, line: Seq<char>) -> bool {
        match self {
            Config::JsAJsx { pattern } => pattern_matches(pattern.source(), line),
            Config::JsxAJs => true,
            Config::Custom { pattern, .. } => pattern_matches(pattern.source(), line),
        }
    }

    /// Whether a file at `path` whose lines are `lines` is selected for renaming.
    pub open spec fn spec_selects(&self, path: Seq<char>, lines: Seq<Seq<char>>) -> bool {
        &&& self.spec_admits(path)
        &&& (self.spec_require_match() ==> exists|i: int|
            0 <= i < lines.len() && #[trigger] self.spec_line_selects(lines[i]))
    }

    /// The path a file at `path` is moved to.
    pub open spec fn spec_new_path(&self, path: Seq<char>) -> Seq<char> {
        path_with_extension(path, self.spec_target_extension())
    }

    /// The extension that selected files are given.
    pub fn target_extension(&self) -> (r: String)
        ensures
            r@ == self.spec_target_extension(),
    {
        proof {
            reveal_strlit("jsx");
            reveal_strlit("js");
        }
        match self {
            Config::JsAJsx { .. } => "jsx".to_owned(),
            Config::JsxAJs => "js".to_owned(),
            Config::Custom { extension, .. } => extension.clone(),
        }
    }

    /// Whether a file must hold a matching line to be selected.
    pub fn require_match(&self) -> (r: bool)
        ensures
            r == self.spec_require_match(),
    {
        !matches!(self, Config::JsxAJs)
    }

    /// The only extension a file may have to be considered, if there is one.
    pub fn extension_filter(&self) -> (r: Option<String>)
        ensures
            match r {
                Some(f) => self.spec_extension_filter() == Some(f@),
                None => self.spec_extension_filter() is None,
            },
    {
        proof {
            reveal_strlit("jsx");
            reveal_strlit("js");
        }
        match self {
            Config::JsAJsx { .. } => Some("js".to_owned()),
            Config::JsxAJs => Some("jsx".to_owned()),
            Config::Custom { .. } => None,
        }
    }

    /// Whether a file at `path` passes the extension filter.
    pub fn admits(&self, path: &str) -> (r: bool)
        ensures
            r == self.spec_admits(path@),
    {
        match self.extension_filter() {
            None => true,
            Some(f) => match extension_of(path) {
                Some(e) => e == f,
                None => false,
            },
        }
    }

    /// Whether `line` is one that selects the file it stands in.
    pub fn line_selects(&self, line: &str) -> (r: bool)
        ensures
            r == self.spec_line_selects(line@),
    {
        match self {
            Config::JsAJsx { pattern } => pattern.is_match(line),
            Config::JsxAJs => true,
            Config::Custom { pattern, .. } => pattern.is_match(line),
        }
    }

    /// The path a file at `path` is moved to: its extension replaced by the target
    /// one, or the target one added. Under a preset the new path never passes the
    /// preset's own filter, so a second run finds nothing left to do.
    pub fn new_path(&self, path: &str) -> (r: String)
        requires
            self.wf(),
        ensures
            r@ == self.spec_new_path(path@),
            plain_extension(self.spec_target_extension()) ==> (path_extension(r@) == Some(
                self.spec_target_extension(),
            ) || (r@ == path@ && path_extension(path@) is None)),
            !(self is Custom) ==> plain_extension(self.spec_target_extension()),
            !(self is Custom) ==> !self.spec_admits(r@),
    {
        let ext = self.target_extension();
        proof {
            reveal_strlit("jsx");
            reveal_strlit("js");
            if !(self is Custom) {
                assert(plain_extension(ext@)) by {
                    if self is JsAJsx {
                        assert(ext@ =~= jsx());
                        assert(ext@[0] != '/' && ext@[1] != '/' && ext@[2] != '/');
                        assert(ext@[0] != '.' && ext@[1] != '.' && ext@[2] != '.');
                    } else {
                        assert(ext@ =~= js());
                        assert(ext@[0] != '/' && ext@[1] != '/');
                        assert(ext@[0] != '.' && ext@[1] != '.');
                    }
                }
            }
        }
        with_extension(path, ext.as_str())
    }

    /// Builds the configuration of an invocation from the preset it names, or from
    /// its own pattern and extension.
    pub fn resolve(modo: Option<Modo>, regex: Option<String>, extension: Option<String>) -> (r:
        Result<Config, ConfigError>)
        ensures
            r matches Ok(c) ==> c.wf(),
            match (modo, regex, extension) {
                (Some(_), Some(_), _) => r == Err::<Config, ConfigError>(ConfigError::Conflict),
                (Some(_), _, Some(_)) => r == Err::<Config, ConfigError>(ConfigError::Conflict),
                (Some(Modo::JsAJsx), None, None) => if pattern_compiles(CLOSING_TAG@) {
                    r matches Ok(c) && c is JsAJsx
                } else {
                    r == Err::<Config, ConfigError>(ConfigError::InvalidRegex)
                },
                (Some(Modo::JsxAJs), None, None) => r matches Ok(c) && c is JsxAJs,
                (None, None, _) => r == Err::<Config, ConfigError>(ConfigError::MissingRegex),
                (None, Some(p), e) => if !pattern_compiles(p@) {
                    r == Err::<Config, ConfigError>(ConfigError::InvalidRegex)
                } else {
                    match e {
                        None => r == Err::<Config, ConfigError>(ConfigError::MissingExtension),
                        Some(e) => if e@.contains('/') {
                            r == Err::<Config, ConfigError>(ConfigError::InvalidExtension)
                        } else {
                            r matches Ok(c) && c is Custom && c->Custom_pattern.source() == p@
                                && c.spec_target_extension() == e@
                        },
                    }
                },
            },
    {
        match modo {
            Some(m) => {
                if regex.is_some() || extension.is_some() {
                    return Err(ConfigError::Conflict);
                }
                match m {
                    Modo::JsAJsx => match Pattern::compile(CLOSING_TAG) {
                        Some(pattern) => Ok(Config::JsAJsx { pattern }),
                        None => Err(ConfigError::InvalidRegex),
                    },
                    Modo::JsxAJs => Ok(Config::JsxAJs),
                }
            },
            None => {
                let source = match regex {
                    Some(source) => source,
                    None => return Err(ConfigError::MissingRegex),
                };
                let pattern = match Pattern::compile(source.as_str()) {
                    Some(pattern) => pattern,
                    None => return Err(ConfigError::InvalidRegex),
                };
                let extension = match extension {
                    Some(extension) => extension,
                    None => return Err(ConfigError::MissingExtension),
                };
                if contains_char(extension.as_str(), '/') {
                    return Err(ConfigError::InvalidExtension);
                }
                Ok(Config::Custom { pattern, extension })
            },
        }
    }
}

} // verus!
