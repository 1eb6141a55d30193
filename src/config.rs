use vstd::prelude::*;

use crate::text::owned;

verus! {

/// The server's settings as the program loads them.
#[derive(Clone, Debug)]
pub struct SystemConfig {
    pub conf_version: Option<String>,
    pub host: String,
    pub port: u16,
    pub config_alts_dir: String,
    pub live2d_models_dir: String,
    pub shared_assets_dir: String,
    pub cache_dir: String,
    pub backgrounds_dir: String,
    pub avatars_dir: String,
    pub characters_dir: String,
    /// Named prompts for tools, in the order given.
    pub tool_prompts: Vec<(String, String)>,
}

/// The character the server presents.
#[derive(Clone, Debug)]
pub struct CharacterConfig {
    pub conf_name: String,
    pub conf_uid: String,
    pub live2d_model_name: String,
    pub character_name: String,
    pub avatar: Option<String>,
    pub human_name: String,
}

/// The whole configuration.
#[derive(Clone, Debug)]
pub struct Config {
    pub system_config: SystemConfig,
    pub character_config: CharacterConfig,
}

pub fn default_conf_version() -> (r: Option<String>)
    ensures
        r matches Some(v) && v@ == "v1.1.1"@,
{
    Some(owned("v1.1.1"))
}

pub fn default_backgrounds_dir() -> (r: String)
    ensures
        r@ == "config/shared/backgrounds"@,
{
    owned("config/shared/backgrounds")
}

pub fn default_avatars_dir() -> (r: String)
    ensures
        r@ == "config/shared/avatars"@,
{
    owned("config/shared/avatars")
}

pub fn default_characters_dir() -> (r: String)
    ensures
        r@ == "config/characters"@,
{
    owned("config/characters")
}

impl Default for SystemConfig {
    fn default() -> (r: Self)
        ensures
            r.conf_version matches Some(v) && v@ == "v1.1.1"@,
            r.host@ == "localhost"@,
            r.port == 12393,
            r.config_alts_dir@ == "characters"@,
            r.live2d_models_dir@ == "config/live2d-models"@,
            r.shared_assets_dir@ == "config/shared"@,
            r.cache_dir@ == "cache"@,
            r.backgrounds_dir@ == "config/shared/backgrounds"@,
            r.avatars_dir@ == "config/shared/avatars"@,
            r.characters_dir@ == "config/characters"@,
            r.tool_prompts@.len() == 0,
    {
        SystemConfig {
            conf_version: default_conf_version(),
            host: owned("localhost"),
            port: 12393,
            config_alts_dir: owned("characters"),
            live2d_models_dir: owned("config/live2d-models"),
            shared_assets_dir: owned("config/shared"),
            cache_dir: owned("cache"),
            backgrounds_dir: default_backgrounds_dir(),
            avatars_dir: default_avatars_dir(),
            characters_dir: default_characters_dir(),
            tool_prompts: Vec::new(),
        }
    }
}

/// How a configuration file is written.
#[derive(Clone, Copy, Debug, PartialEq, Eq, Structural)]
pub enum ConfigFormat {
    Json,
    Yaml,
}

/// Whether `s` ends with `suffix`, ignoring ASCII case in `s`.
pub open spec fn ends_with_lower(s: Seq<char>, suffix: Seq<char>) -> bool {
    s.len() >= suffix.len() && forall|i: int|
        0 <= i < suffix.len() ==> lower_ascii(#[trigger] s[s.len() - suffix.len() + i])
            == suffix[i]
}

/// The ASCII lower-case form of a character.
pub open spec fn lower_ascii(c: char) -> char {
    if 'A' <= c <= 'Z' {
        (((c as u32) + 32) as u8) as char
    } else {
        c
    }
}

fn lower_char(c: char) -> (r: char)
    ensures
        r == lower_ascii(c),
{
    if 'A' <= c && c <= 'Z' {
        (((c as u32) + 32) as u8) as char
    } else {
        c
    }
}

/// Whether `s` ends with the lower-case `suffix`, ignoring ASCII case in `s`.
pub fn has_suffix_lower(s: &str, suffix: &str) -> (r: bool)
    ensures
        r == ends_with_lower(s@, suffix@),
{
    let n = s.unicode_len();
    let m = suffix.unicode_len();
    if n < m {
        return false;
    }
    let mut i: usize = 0;
    while i < m
        invariant
            n == s@.len(),
            m == suffix@.len(),
            m <= n,
            i <= m,
            forall|k: int| 0 <= k < i ==> lower_ascii(#[trigger] s@[n - m + k]) == suffix@[k],
        decreases m - i,
    {
        if lower_char(s.get_char(n - m + i)) != suffix.get_char(i) {
            return false;
        }
        i += 1;
    }
    true
}

/// The format of a configuration file by its name: JSON for `.json` and `.jsonld`, in any
/// case; YAML otherwise.
pub fn config_format(path: &str) -> (r: ConfigFormat)
    ensures
        r == if ends_with_lower(path@, ".jsonld"@) || ends_with_lower(path@, ".json"@) {
            ConfigFormat::Json
        } else {
            ConfigFormat::Yaml
        },
{
    if has_suffix_lower(path, ".jsonld") || has_suffix_lower(path, ".json") {
        ConfigFormat::Json
    } else {
        ConfigFormat::Yaml
    }
}

/// Whether a file name is a background image: a `jpg`, `jpeg`, `png` or `gif` extension, in
/// any case.
pub fn is_background_file(name: &str) -> (r: bool)
    ensures
        r == (ends_with_lower(name@, ".jpg"@) || ends_with_lower(name@, ".jpeg"@)
            || ends_with_lower(name@, ".png"@) || ends_with_lower(name@, ".gif"@)),
{
    has_suffix_lower(name, ".jpg") || has_suffix_lower(name, ".jpeg") || has_suffix_lower(
        name,
        ".png",
    ) || has_suffix_lower(name, ".gif")
}

} // verus!
