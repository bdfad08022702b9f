use vstd::prelude::*;

use crate::error::Error;

verus! {

/// The extension of the last component of `path`, as std's path rules read it.
pub uninterp spec fn path_extension(path: Seq<char>) -> Option<Seq<char>>;

/// `s` in lower case, as Unicode's case mapping gives it.
pub uninterp spec fn lowercase(s: Seq<char>) -> Seq<char>;

/// Whether `c` has Unicode's White_Space property: the controls from tab to
/// carriage return, space, next line, no-break space, ogham space mark, the
/// spaces from en quad to hair space, the line and paragraph separators, the
/// narrow no-break and medium mathematical spaces, and ideographic space.
pub open spec fn white_space(c: char) -> bool {
    let u = c as u32;
    (0x9 <= u && u <= 0xD) || u == 0x20 || u == 0x85 || u == 0xA0 || u == 0x1680 || (0x2000 <= u
        && u <= 0x200A) || u == 0x2028 || u == 0x2029 || u == 0x202F || u == 0x205F || u == 0x3000
}

/// `name` appended to `base` as a further path component, read back as text.
pub uninterp spec fn path_joined(base: Seq<char>, name: Seq<char>) -> Option<Seq<char>>;

/// Relies on std::path::Path::join, which appends `name` to `base` as a further
/// component, and Path::to_str, which reads the joined path back as text.
#[verifier::external_body]
fn join_path(base: &str, name: &str) -> (r: Option<String>)
    ensures
        r.deep_view() == path_joined(base@, name@),
{
    std::path::Path::new(base).join(name).to_str().map(|s| s.to_string())
}

/// Relies on std::path::Path::extension: the part of the file name after its
/// last `.`, none where the name has no `.` past its first character.
#[verifier::external_body]
fn extension_of(path: &str) -> (r: Option<String>)
    ensures
        r.deep_view() == path_extension(path@),
{
    std::path::Path::new(path).extension().and_then(|e| e.to_str()).map(|e| e.to_string())
}

/// Relies on str::to_lowercase, whose result depends on the characters alone.
#[verifier::external_body]
fn to_lowercase(s: &str) -> (r: String)
    ensures
        r@ == lowercase(s@),
{
    s.to_lowercase()
}

/// Whether `c` is white space, as `white_space` lists it.
pub(crate) fn is_whitespace(c: char) -> (r: bool)
    ensures
        r == white_space(c),
{
    let u = c as u32;
    (0x9 <= u && u <= 0xD) || u == 0x20 || u == 0x85 || u == 0xA0 || u == 0x1680 || (0x2000 <= u
        && u <= 0x200A) || u == 0x2028 || u == 0x2029 || u == 0x202F || u == 0x205F || u == 0x3000
}

/// The lower-cased extension of a path.
pub open spec fn extension_spec(path: Seq<char>) -> Option<Seq<char>> {
    match path_extension(path) {
        Some(e) => Some(lowercase(e)),
        None => None,
    }
}

/// `s` starts with `p`.
pub open spec fn starts_with(s: Seq<char>, p: Seq<char>) -> bool {
    p.len() <= s.len() && s.subrange(0, p.len() as int) == p
}

/// Nothing but white space.
pub open spec fn blank(s: Seq<char>) -> bool {
    forall|i: int| 0 <= i < s.len() ==> white_space(#[trigger] s[i])
}

/// Takes a path and returns its extension in lower case: `example.JPG` gives `jpg`.
pub fn get_extension_from_path(path: &str) -> (r: Option<String>)
    ensures
        r.deep_view() == extension_spec(path@),
{
    match extension_of(path) {
        Some(e) => Some(to_lowercase(e.as_str())),
        None => None,
    }
}

/// Whether the text is empty or white space only.
pub fn is_blank(s: &str) -> (r: bool)
    ensures
        r == blank(s@),
{
    let n = s.unicode_len();
    let mut i: usize = 0;
    while i < n
        invariant
            n == s@.len(),
            i <= n,
            forall|k: int| 0 <= k < i ==> white_space(#[trigger] s@[k]),
        decreases n - i,
    {
        if !is_whitespace(s.get_char(i)) {
            return false;
        }
        i = i + 1;
    }
    true
}

/// Whether `s` starts with `prefix`.
fn has_prefix(s: &str, prefix: &str) -> (r: bool)
    ensures
        r == starts_with(s@, prefix@),
{
    let n = s.unicode_len();
    let m = prefix.unicode_len();
    if m > n {
        return false;
    }
    let head = String::from_str(s.substring_char(0, m));
    head == String::from_str(prefix)
}

/// A site list or config is fetched over the network when its location starts
/// with an http or https scheme, and read from disk otherwise.
pub fn is_remote(path_or_url: &str) -> (r: bool)
    ensures
        r == (starts_with(path_or_url@, "http://"@) || starts_with(path_or_url@, "https://"@)),
{
    has_prefix(path_or_url, "http://") || has_prefix(path_or_url, "https://")
}

/// The formats a site list can be written in.
#[derive(Debug, Clone, Copy, PartialEq, Eq, Structural)]
pub enum ListFormat {
    Json,
    Toml,
    Csv,
}

/// The formats a config file can be written in.
#[derive(Debug, Clone, Copy, PartialEq, Eq, Structural)]
pub enum ConfigFormat {
    Json,
    Toml,
}

/// The format named by a site list's extension: JSON where there is none,
/// else `json`, `toml` or `csv`; any other extension is unsupported.
pub open spec fn list_format_spec(extension: Option<Seq<char>>, r: Result<ListFormat, Error>) -> bool {
    match extension {
        None => r == Ok::<ListFormat, Error>(ListFormat::Json),
        Some(e) => if e == "json"@ {
            r == Ok::<ListFormat, Error>(ListFormat::Json)
        } else if e == "toml"@ {
            r == Ok::<ListFormat, Error>(ListFormat::Toml)
        } else if e == "csv"@ {
            r == Ok::<ListFormat, Error>(ListFormat::Csv)
        } else {
            r matches Err(Error::UnsupportedFormat { extension }) && extension@ == e
        },
    }
}

/// The format of a site list, given its lower-cased extension.
pub fn list_format_for(extension: Option<String>) -> (r: Result<ListFormat, Error>)
    ensures
        list_format_spec(extension.deep_view(), r),
{
    match extension {
        None => Ok(ListFormat::Json),
        Some(e) => {
            if e == String::from_str("json") {
                Ok(ListFormat::Json)
            } else if e == String::from_str("toml") {
                Ok(ListFormat::Toml)
            } else if e == String::from_str("csv") {
                Ok(ListFormat::Csv)
            } else {
                Err(Error::UnsupportedFormat { extension: e })
            }
        },
    }
}

/// The format of the site list at `path`, from its extension.
pub fn list_format(path: &str) -> (r: Result<ListFormat, Error>)
    ensures
        list_format_spec(extension_spec(path@), r),
{
    list_format_for(get_extension_from_path(path))
}

/// The format of a config file from its lower-cased extension: `json` or
/// `toml`; anything else, a missing extension too, is unsupported.
pub open spec fn config_format_spec(extension: Option<Seq<char>>, r: Result<ConfigFormat, Error>) -> bool {
    let e = match extension {
        Some(e) => e,
        None => Seq::empty(),
    };
    if e == "json"@ {
        r == Ok::<ConfigFormat, Error>(ConfigFormat::Json)
    } else if e == "toml"@ {
        r == Ok::<ConfigFormat, Error>(ConfigFormat::Toml)
    } else {
        r matches Err(Error::UnsupportedFormat { extension }) && extension@ == e
    }
}

/// The format of a config file, given its lower-cased extension.
pub fn config_format_for(extension: Option<String>) -> (r: Result<ConfigFormat, Error>)
    ensures
        config_format_spec(extension.deep_view(), r),
{
    let e = match extension {
        Some(e) => e,
        None => String::new(),
    };
    if e == String::from_str("json") {
        Ok(ConfigFormat::Json)
    } else if e == String::from_str("toml") {
        Ok(ConfigFormat::Toml)
    } else {
        Err(Error::UnsupportedFormat { extension: e })
    }
}

/// How a config file that was read is to be parsed: a blank file gives no
/// settings; otherwise its extension decides the format.
pub fn config_format(config_path: &str, content: &str) -> (r: Result<Option<ConfigFormat>, Error>)
    ensures
        blank(content@) ==> r == Ok::<Option<ConfigFormat>, Error>(None),
        !blank(content@) ==> (match r {
            Ok(Some(f)) => config_format_spec(extension_spec(config_path@), Ok(f)),
            Ok(None) => false,
            Err(e) => config_format_spec(extension_spec(config_path@), Err(e)),
        }),
{
    if is_blank(content) {
        return Ok(None);
    }
    match config_format_for(get_extension_from_path(config_path)) {
        Ok(f) => Ok(Some(f)),
        Err(e) => Err(e),
    }
}

/// The name of the config file looked for in a directory given on the command line.
pub const DEFAULT_CONFIG_NAME: &'static str = "ringfairy.toml";

/// Where the config file is looked for: in a directory given on the command
/// line, under the default config name; at any other path given there, that
/// path; without one, the path of the `--cfg` option, if any.
pub fn config_path(input_path: Option<String>, input_is_dir: bool, filepath_config: Option<String>) -> (r:
    Option<String>)
    ensures
        (match input_path {
            Some(p) => r.deep_view() == if input_is_dir {
                path_joined(p@, DEFAULT_CONFIG_NAME@)
            } else {
                Some(p@)
            },
            None => r.deep_view() == filepath_config.deep_view(),
        }),
{
    match input_path {
        Some(p) => {
            if input_is_dir {
                join_path(p.as_str(), DEFAULT_CONFIG_NAME)
            } else {
                Some(p)
            }
        },
        None => filepath_config,
    }
}

} // verus!
