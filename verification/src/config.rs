//! Definition-time configuration of a version chain.
//!
//! A chain definition names the domain type, an optional custom name for the
//! envelope ("representation") type, an operating mode, an error type when
//! the mode is fallible, a transparent-bridging toggle, and the ordered list
//! of version shape types. Type and mode names are carried here as plain
//! strings. [`validate`] checks the structural rules once, at definition
//! time: the chain must be non-empty, the mode keyword must be recognized,
//! and fallible mode must come with an error type.

use vstd::prelude::*;

verus! {

/// The operating mode of a validated chain definition.
///
/// In total (infallible) mode every migration edge is guaranteed to succeed.
/// In fallible mode edges may fail with the named caller-supplied error type,
/// and composition fails fast at the first failing edge.
#[derive(Clone, Debug, PartialEq, Eq)]
pub enum Mode {
    Infallible,
    Fallible { error: String },
}

/// A chain definition as the attribute reader hands it over, before
/// validation: every part optional except the domain type name and the
/// chain itself.
#[derive(Clone, Debug)]
pub struct ParsedInput {
    /// Name of the domain type.
    pub ident: String,
    /// Custom name for the envelope type, if any.
    pub representation: Option<String>,
    /// Mode keyword, if any; `None` defaults to `"fallible"`.
    pub mode: Option<String>,
    /// Name of the error type for fallible mode, if any.
    pub error: Option<String>,
    /// Whether transparent bridging is requested.
    pub transparent: bool,
    /// Names of the version shape types, in chain order.
    pub versions: Vec<String>,
}

/// A chain definition that passed validation: defaults are filled in and the
/// mode carries its error type.
#[derive(Clone, Debug)]
pub struct ValidatedInput {
    /// Name of the domain type.
    pub domain_ident: String,
    /// Name of the envelope type.
    pub rep_ident: String,
    /// The operating mode.
    pub mode: Mode,
    /// Whether transparent bridging is requested.
    pub transparent: bool,
    /// Names of the version shape types, in chain order.
    pub versions: Vec<String>,
}

/// A definition-time configuration error. Each one blocks the definition
/// outright; none is deferred to runtime.
#[derive(Clone, Debug, PartialEq, Eq)]
pub enum ConfigError {
    /// The chain holds no version shape at all.
    EmptyChain,
    /// The mode is fallible but no error type was named.
    MissingErrorType,
    /// The mode keyword is neither `"infallible"` nor `"fallible"`;
    /// the unrecognized keyword is carried along.
    InvalidMode(String),
}

impl ConfigError {
    /// The wording of the error, as surfaced at definition time.
    pub open spec fn message_spec(&self) -> Seq<char> {
        match self {
            ConfigError::EmptyChain => "chain must contain at least one version type"@,
            ConfigError::MissingErrorType => "fallible mode requires 'error' attribute"@,
            ConfigError::InvalidMode(m) => "invalid mode '"@ + m@
                + "', expected 'infallible' or 'fallible'"@,
        }
    }

    /// Render the error's wording.
    pub fn message(&self) -> (s: String)
        ensures
            s@ == self.message_spec(),
    {
        match self {
            ConfigError::EmptyChain => String::from_str(
                "chain must contain at least one version type",
            ),
            ConfigError::MissingErrorType => String::from_str(
                "fallible mode requires 'error' attribute",
            ),
            ConfigError::InvalidMode(m) => String::from_str("invalid mode '").concat(
                m.as_str(),
            ).concat("', expected 'infallible' or 'fallible'"),
        }
    }
}

/// One item of the `chain(...)` attribute list, as the attribute reader
/// hands it over: a type path, some other attribute form, or a literal.
#[derive(Clone, Debug)]
pub enum MetaItem {
    /// A bare type path, carried as its text.
    Path(String),
    /// An attribute form that is not a bare path.
    OtherMeta,
    /// A literal.
    Lit,
}

/// The reading error of a chain attribute list: only bare type paths may
/// stand in it.
#[derive(Clone, Copy, Debug, PartialEq, Eq, Structural)]
pub enum AttrError {
    /// Some item of the list is not a bare type path.
    UnexpectedChainItem,
}

/// A chain definition as the attribute reader first sees it, before the
/// chain list is checked to hold only type paths.
#[derive(Clone, Debug)]
pub struct RawInput {
    /// Name of the domain type.
    pub ident: String,
    /// Custom name for the envelope type, if any.
    pub rep: Option<String>,
    /// Mode keyword, if any.
    pub mode: Option<String>,
    /// Name of the error type, if any.
    pub error: Option<String>,
    /// The transparent-bridging toggle, if given; `None` defaults to off.
    pub transparent: Option<bool>,
    /// The items of the chain attribute list.
    pub chain: Vec<MetaItem>,
}

/// Whether every item of a chain attribute list is a bare type path.
pub open spec fn all_paths(items: Seq<MetaItem>) -> bool {
    forall|i: int| 0 <= i < items.len() ==> (#[trigger] items[i]) is Path
}

/// The path text of a chain attribute item.
pub open spec fn path_name(m: MetaItem) -> String
    recommends
        m is Path,
{
    match m {
        MetaItem::Path(p) => p,
        _ => vstd::pervasive::arbitrary(),
    }
}

/// Read a raw chain definition into a [`ParsedInput`]: the chain list must
/// hold bare type paths only, and the transparent toggle defaults to off.
pub fn parse_input(input: RawInput) -> (r: Result<ParsedInput, AttrError>)
    ensures
        all_paths(input.chain@) ==> (r matches Ok(p) && p.ident == input.ident
            && p.representation == input.rep && p.mode == input.mode && p.error == input.error
            && p.transparent == (input.transparent matches Some(true)) && p.versions@
            == input.chain@.map_values(|m: MetaItem| path_name(m))),
        !all_paths(input.chain@) ==> r == Err::<ParsedInput, AttrError>(
            AttrError::UnexpectedChainItem,
        ),
{
    let RawInput { ident, rep, mode, error, transparent, chain } = input;
    let n = chain.len();
    let mut versions: Vec<String> = Vec::new();
    let mut i: usize = 0;
    while i < n
        invariant
            0 <= i <= n,
            n == chain@.len(),
            chain@ == input.chain@,
            forall|j: int| 0 <= j < i ==> (#[trigger] chain@[j]) is Path,
            versions@ == chain@.take(i as int).map_values(|m: MetaItem| path_name(m)),
        decreases n - i,
    {
        match &chain[i] {
            MetaItem::Path(p) => {
                versions.push(p.clone());
                proof {
                    assert(chain@.take(i as int + 1).map_values(|m: MetaItem| path_name(m))
                        =~= chain@.take(i as int).map_values(|m: MetaItem| path_name(m)).push(
                        path_name(chain@[i as int]),
                    ));
                }
            },
            _ => {
                return Err(AttrError::UnexpectedChainItem);
            },
        }
        i = i + 1;
    }
    proof {
        assert(chain@.take(n as int) =~= chain@);
    }
    Ok(
        ParsedInput {
            ident,
            representation: rep,
            mode,
            error,
            transparent: match transparent {
                Some(b) => b,
                None => false,
            },
            versions,
        },
    )
}

/// The mode keyword that governs validation: the one given, or `"fallible"`
/// when none was.
pub open spec fn spec_mode_word(parsed: ParsedInput) -> Seq<char> {
    match parsed.mode {
        Some(m) => m@,
        None => "fallible"@,
    }
}

/// The envelope type name that validation settles on: the custom one, or the
/// domain type name with `Versions` appended.
pub open spec fn spec_rep_name(parsed: ParsedInput) -> Seq<char> {
    match parsed.representation {
        Some(r) => r@,
        None => parsed.ident@ + "Versions"@,
    }
}

/// Validate a chain definition.
///
/// Exactly one of four outcomes holds. An empty chain is refused first; then
/// an unrecognized mode keyword; then a fallible mode without an error type.
/// Otherwise the definition is accepted with the envelope name defaulted and
/// the mode resolved.
pub fn validate(parsed: ParsedInput) -> (r: Result<ValidatedInput, ConfigError>)
    ensures
        ({
            let w = spec_mode_word(parsed);
            match r {
                Ok(v) => {
                    &&& parsed.versions@.len() > 0
                    &&& (w == "infallible"@ || (w == "fallible"@ && parsed.error is Some))
                    &&& v.domain_ident == parsed.ident
                    &&& v.rep_ident@ == spec_rep_name(parsed)
                    &&& v.transparent == parsed.transparent
                    &&& v.versions == parsed.versions
                    &&& (if w == "infallible"@ {
                        v.mode == Mode::Infallible
                    } else {
                        v.mode matches Mode::Fallible { error } && parsed.error == Some(error)
                    })
                },
                Err(ConfigError::EmptyChain) => parsed.versions@.len() == 0,
                Err(ConfigError::MissingErrorType) => {
                    &&& parsed.versions@.len() > 0
                    &&& w == "fallible"@
                    &&& parsed.error is None
                },
                Err(ConfigError::InvalidMode(m)) => {
                    &&& parsed.versions@.len() > 0
                    &&& w != "infallible"@
                    &&& w != "fallible"@
                    &&& m@ == w
                },
            }
        }),
{
    let ghost p = parsed;
    let ParsedInput { ident, representation, mode, error, transparent, versions } = parsed;

    if versions.len() == 0 {
        return Err(ConfigError::EmptyChain);
    }

    let rep_ident: String = match representation {
        Some(r) => r,
        None => ident.clone().concat("Versions"),
    };

    let mode_word: String = match mode {
        Some(m) => m,
        None => String::from_str("fallible"),
    };

    let validated_mode: Mode = if mode_word == String::from_str("infallible") {
        Mode::Infallible
    } else if mode_word == String::from_str("fallible") {
        match error {
            Some(e) => Mode::Fallible { error: e },
            None => {
                return Err(ConfigError::MissingErrorType);
            },
        }
    } else {
        return Err(ConfigError::InvalidMode(mode_word));
    };

    Ok(ValidatedInput {
        domain_ident: ident,
        rep_ident,
        mode: validated_mode,
        transparent,
        versions,
    })
}

} // verus!

