//! The persisted configuration record and its directory accessors.
//!
//! The record holds every user preference plus the installation root, and
//! forwards directory questions to the resolver. Durability is the
//! surrounding application's job: it hands stored field values in through
//! [`PartialConfig`] and receives the record back for saving, while every
//! defaulting and resolution rule stays here.

use vstd::prelude::*;

use crate::column::ColumnConfig;
use crate::column::spec_default_column_config;
use crate::flavor::Flavor;
use crate::flavor::Wow;
use crate::flavor::spec_folder_name;
use crate::paths::has_plain_char;
use crate::paths::has_slash;
use crate::paths::join_segment;
use crate::paths::parent_path;
use crate::paths::pick_resolved;
use crate::paths::plain_path_char;
use crate::paths::spec_parent;
use crate::paths::suffix_matches_nocase;
use crate::paths::views_of;
use crate::paths::wildcard_tail;
use crate::probe::glob_matches_nocase;
use crate::probe::path_exists;

verus! {

/// Which release stream self-updates follow.
#[derive(Debug, Clone, Copy, PartialEq, Eq, Structural)]
pub enum SelfUpdateChannel {
    Stable,
    Beta,
}

impl SelfUpdateChannel {
    /// Every channel, in a fixed order.
    pub fn all() -> (r: [SelfUpdateChannel; 2])
        ensures
            r@ == seq![SelfUpdateChannel::Stable, SelfUpdateChannel::Beta],
    {
        let r = [SelfUpdateChannel::Stable, SelfUpdateChannel::Beta];
        proof {
            assert(r@ =~= seq![SelfUpdateChannel::Stable, SelfUpdateChannel::Beta]);
        }
        r
    }

    /// The channel's user-facing name.
    pub fn name(&self) -> (r: &'static str)
        ensures
            *self == SelfUpdateChannel::Stable ==> r@ == "Stable"@,
            *self == SelfUpdateChannel::Beta ==> r@ == "Beta"@,
    {
        match self {
            SelfUpdateChannel::Stable => "Stable",
            SelfUpdateChannel::Beta => "Beta",
        }
    }
}

impl Default for SelfUpdateChannel {
    fn default() -> (r: Self)
        ensures
            r == SelfUpdateChannel::Stable,
    {
        SelfUpdateChannel::Stable
    }
}

/// The user-interface locale; a closed set, each value with an immutable
/// IETF-style language code.
#[derive(Debug, Clone, Copy, PartialEq, Eq, Structural, Hash)]
pub enum Language {
    English,
    Danish,
    German,
    French,
}

/// The language code of a locale.
pub open spec fn spec_language_code(l: Language) -> Seq<char> {
    match l {
        Language::English => "en_US"@,
        Language::Danish => "da_DK"@,
        Language::German => "de_DE"@,
        Language::French => "fr_FR"@,
    }
}

impl Language {
    /// Every locale, in a fixed order.
    pub fn all() -> (r: Vec<Language>)
        ensures
            r@ == seq![Language::English, Language::Danish, Language::German, Language::French],
    {
        let mut v: Vec<Language> = Vec::new();
        v.push(Language::English);
        v.push(Language::Danish);
        v.push(Language::German);
        v.push(Language::French);
        proof {
            assert(v@ =~= seq![
                Language::English,
                Language::Danish,
                Language::German,
                Language::French,
            ]);
        }
        v
    }

    /// The locale's IETF-style language code.
    pub fn language_code(self) -> (r: &'static str)
        ensures
            r@ == spec_language_code(self),
    {
        match self {
            Language::English => "en_US",
            Language::Danish => "da_DK",
            Language::German => "de_DE",
            Language::French => "fr_FR",
        }
    }

    /// The locale's user-facing name.
    pub fn name(&self) -> (r: &'static str)
        ensures
            *self == Language::English ==> r@ == "English"@,
            *self == Language::Danish ==> r@ == "Danish"@,
            *self == Language::German ==> r@ == "German"@,
            *self == Language::French ==> r@ == "French"@,
    {
        match self {
            Language::English => "English",
            Language::Danish => "Danish",
            Language::German => "German",
            Language::French => "French",
        }
    }
}

impl Default for Language {
    fn default() -> (r: Self)
        ensures
            r == Language::English,
    {
        Language::English
    }
}

/// No two locales share a language code.
pub proof fn lemma_language_codes_distinct(a: Language, b: Language)
    requires
        a != b,
    ensures
        spec_language_code(a) != spec_language_code(b),
{
    reveal_strlit("en_US");
    reveal_strlit("da_DK");
    reveal_strlit("de_DE");
    reveal_strlit("fr_FR");
    assert(("en_US"@)[0] == 'e' && ("en_US"@)[1] == 'n');
    assert(("da_DK"@)[0] == 'd' && ("da_DK"@)[1] == 'a');
    assert(("de_DE"@)[0] == 'd' && ("de_DE"@)[1] == 'e');
    assert(("fr_FR"@)[0] == 'f' && ("fr_FR"@)[1] == 'r');
}

/// The per-flavor account keys for the account-linked aura feature. An
/// absent entry is valid and means the feature is unused for that flavor;
/// by construction no flavor can hold more than one key.
#[derive(Debug, Clone, PartialEq)]
pub struct AccountKeys {
    pub retail: Option<String>,
    pub retail_ptr: Option<String>,
    pub retail_beta: Option<String>,
    pub classic: Option<String>,
}

impl AccountKeys {
    /// The key stored for a flavor, if any.
    pub open spec fn entry(self, f: Flavor) -> Option<String> {
        match f {
            Flavor::Retail => self.retail,
            Flavor::RetailPtr => self.retail_ptr,
            Flavor::RetailBeta => self.retail_beta,
            Flavor::Classic => self.classic,
        }
    }

    /// Reads the key stored for `flavor`.
    pub fn get(&self, flavor: Flavor) -> (r: &Option<String>)
        ensures
            *r == self.entry(flavor),
    {
        match flavor {
            Flavor::Retail => &self.retail,
            Flavor::RetailPtr => &self.retail_ptr,
            Flavor::RetailBeta => &self.retail_beta,
            Flavor::Classic => &self.classic,
        }
    }

    /// Stores `key` for `flavor`, leaving every other flavor's entry alone.
    pub fn insert(&mut self, flavor: Flavor, key: String)
        ensures
            final(self).entry(flavor) == Some(key),
            forall|g: Flavor| g != flavor ==> final(self).entry(g) == old(self).entry(g),
    {
        match flavor {
            Flavor::Retail => self.retail = Some(key),
            Flavor::RetailPtr => self.retail_ptr = Some(key),
            Flavor::RetailBeta => self.retail_beta = Some(key),
            Flavor::Classic => self.classic = Some(key),
        }
    }
}

impl Default for AccountKeys {
    /// No flavor linked to an account.
    fn default() -> (r: Self)
        ensures
            forall|f: Flavor| r.entry(f) is None,
    {
        AccountKeys { retail: None, retail_ptr: None, retail_beta: None, classic: None }
    }
}

/// The persisted configuration record.
#[derive(Debug, Clone, PartialEq)]
pub struct Config {
    /// The game installation shared by all flavors.
    pub wow: Wow,
    /// Name of the selected UI theme.
    pub theme: Option<String>,
    /// The versioned column layout.
    pub column_config: ColumnConfig,
    /// Last window size, width by height in pixels.
    pub window_size: Option<(u32, u32)>,
    /// UI scale in thousandths of the default size.
    pub scale: Option<u64>,
    /// Where backup archives are written.
    pub backup_directory: Option<String>,
    /// Whether backups include the add-on directory.
    pub backup_addons: bool,
    /// Whether backups include the settings ("WTF") directory.
    pub backup_wtf: bool,
    /// Whether ignored add-ons are hidden from the list.
    pub hide_ignored_addons: bool,
    /// Which release stream self-updates follow.
    pub self_update_channel: SelfUpdateChannel,
    /// Per-flavor account keys for the account-linked aura feature.
    pub weak_auras_account: AccountKeys,
    /// Whether list rows alternate background colors.
    pub alternating_row_colors: bool,
    /// The user-interface locale.
    pub language: Language,
}

/// The documented all-defaults record.
pub open spec fn spec_default_config() -> Config {
    Config {
        wow: Wow { directory: None },
        theme: None,
        column_config: spec_default_column_config(),
        window_size: None,
        scale: None,
        backup_directory: None,
        backup_addons: false,
        backup_wtf: false,
        hide_ignored_addons: false,
        self_update_channel: SelfUpdateChannel::Stable,
        weak_auras_account: AccountKeys {
            retail: None,
            retail_ptr: None,
            retail_beta: None,
            classic: None,
        },
        alternating_row_colors: true,
        language: Language::English,
    }
}

impl Default for Config {
    fn default() -> (r: Self)
        ensures
            r == spec_default_config(),
    {
        Config {
            wow: Wow { directory: None },
            theme: None,
            column_config: ColumnConfig::V1 {
                local_version_width: 150,
                remote_version_width: 150,
                status_width: 85,
            },
            window_size: None,
            scale: None,
            backup_directory: None,
            backup_addons: false,
            backup_wtf: false,
            hide_ignored_addons: false,
            self_update_channel: SelfUpdateChannel::Stable,
            weak_auras_account: AccountKeys {
                retail: None,
                retail_ptr: None,
                retail_beta: None,
                classic: None,
            },
            alternating_row_colors: true,
            language: Language::English,
        }
    }
}

/// The canonical add-on directory for a root and a flavor.
pub open spec fn addon_canonical(root: Seq<char>, f: Flavor) -> Seq<char> {
    root + "/"@ + spec_folder_name(f) + "/"@ + "Interface/AddOns"@
}

/// The canonical settings ("WTF") directory for a root and a flavor.
pub open spec fn wtf_canonical(root: Seq<char>, f: Flavor) -> Seq<char> {
    root + "/"@ + spec_folder_name(f) + "/"@ + "WTF"@
}

/// The fallback search tail for the add-on directory is a clean wildcard
/// tail: only the leading letter of each segment is wildcarded.
proof fn lemma_addon_tail_wildcard()
    ensures
        wildcard_tail("?nterface/?ddons"@),
{
    reveal_strlit("?nterface/?ddons");
}

/// The fallback search tail for the settings directory is a clean
/// wildcard tail.
proof fn lemma_wtf_tail_wildcard()
    ensures
        wildcard_tail("?tf"@),
{
    reveal_strlit("?tf");
}

/// The directory a fallback search starts from always names a real
/// component: every flavor folder begins with an underscore.
proof fn lemma_base_has_plain_char(root: Seq<char>, f: Flavor)
    ensures
        has_plain_char(root + "/"@ + spec_folder_name(f)),
{
    reveal_strlit("/");
    reveal_strlit("_retail_");
    reveal_strlit("_ptr_");
    reveal_strlit("_beta_");
    reveal_strlit("_classic_");
    let s = root + "/"@ + spec_folder_name(f);
    assert(s[root.len() as int + 1] == spec_folder_name(f)[0]);
    assert(spec_folder_name(f)[0] == '_');
    assert(plain_path_char('_'));
}

/// The canonical settings directory contains a separator.
proof fn lemma_wtf_canonical_has_slash(root: Seq<char>, f: Flavor)
    ensures
        has_slash(wtf_canonical(root, f)),
{
    reveal_strlit("/");
    let pre = root + "/"@ + spec_folder_name(f);
    assert(wtf_canonical(root, f)[pre.len() as int] == '/');
}

impl Config {
    /// Resolves the directory containing the add-ons, or `None` while no
    /// installation root is set.
    ///
    /// The canonical path is preferred when it exists on disk; otherwise
    /// the last case-insensitive match of the filesystem walk, or the
    /// canonical path unchanged when the walk found nothing — the policy
    /// `pick_resolved` fixes exactly. Every returned path is either the
    /// canonical one or ends like it up to letter case, with the leading
    /// letter of the last two segments free, which is what the wildcard
    /// search admits.
    pub fn get_addon_directory_for_flavor(&self, flavor: &Flavor) -> (r: Option<String>)
        ensures
            r is Some <==> self.wow.directory is Some,
            r matches Some(p) ==> p@ == addon_canonical(self.wow.directory->Some_0@, *flavor)
                || suffix_matches_nocase("?nterface/?ddons"@, p@),
            r matches Some(p) ==> has_slash(p@),
    {
        match &self.wow.directory {
            Some(dir) => {
                let base = join_segment(dir.as_str(), flavor.folder_name());
                let canonical = join_segment(base.as_str(), "Interface/AddOns");
                proof {
                    lemma_canonical_staging_is_parent(dir@, *flavor);
                    assert(has_slash(addon_canonical(dir@, *flavor)));
                }
                if path_exists(canonical.as_str()) {
                    Some(canonical)
                } else {
                    let candidates = glob_matches_nocase(base.as_str(), "?nterface/?ddons");
                    let picked = pick_resolved(canonical, false, &candidates);
                    proof {
                        lemma_addon_tail_wildcard();
                        lemma_base_has_plain_char(dir@, *flavor);
                        if candidates@.len() > 0 {
                            assert(views_of(candidates@).last() == candidates@.last()@);
                            assert(suffix_matches_nocase("?nterface/?ddons"@, picked@));
                            assert(picked@[picked@.len() - ("?nterface/?ddons"@).len() - 1]
                                == '/');
                            assert(has_slash(picked@));
                        }
                    }
                    Some(picked)
                }
            },
            None => None,
        }
    }

    /// Resolves the directory that holds temporary download archives: the
    /// parent of the resolved add-on directory, present exactly when an
    /// installation root is set. The parent always exists: every path the
    /// add-on resolution can return contains a separator, so a parentless
    /// result is proved impossible rather than guessed around.
    pub fn get_download_directory_for_flavor(&self, flavor: Flavor) -> (r: Option<String>)
        ensures
            r is Some <==> self.wow.directory is Some,
            r matches Some(p) ==> exists|q: Seq<char>|
                (q == addon_canonical(self.wow.directory->Some_0@, flavor)
                    || suffix_matches_nocase("?nterface/?ddons"@, q)) && #[trigger] spec_parent(q)
                    == Some(p@),
    {
        match self.get_addon_directory_for_flavor(&flavor) {
            Some(addon_dir) => match parent_path(addon_dir.as_str()) {
                Some(parent) => {
                    proof {
                        assert(spec_parent(addon_dir@) == Some(parent@));
                    }
                    Some(parent)
                },
                None => {
                    proof {
                        // dead: the add-on resolution contains a separator
                        assert(false);
                    }
                    None
                },
            },
            None => None,
        }
    }

    /// Resolves the settings ("WTF") directory, or `None` while no
    /// installation root is set. Same policy and same guarantee as the
    /// add-on resolution, with the single-segment tail.
    pub fn get_wtf_directory_for_flavor(&self, flavor: &Flavor) -> (r: Option<String>)
        ensures
            r is Some <==> self.wow.directory is Some,
            r matches Some(p) ==> p@ == wtf_canonical(self.wow.directory->Some_0@, *flavor)
                || suffix_matches_nocase("?tf"@, p@),
            r matches Some(p) ==> has_slash(p@),
    {
        match &self.wow.directory {
            Some(dir) => {
                let base = join_segment(dir.as_str(), flavor.folder_name());
                let canonical = join_segment(base.as_str(), "WTF");
                proof {
                    lemma_wtf_canonical_has_slash(dir@, *flavor);
                }
                if path_exists(canonical.as_str()) {
                    Some(canonical)
                } else {
                    let candidates = glob_matches_nocase(base.as_str(), "?tf");
                    let picked = pick_resolved(canonical, false, &candidates);
                    proof {
                        lemma_wtf_tail_wildcard();
                        lemma_base_has_plain_char(dir@, *flavor);
                        if candidates@.len() > 0 {
                            assert(views_of(candidates@).last() == candidates@.last()@);
                            assert(suffix_matches_nocase("?tf"@, picked@));
                            assert(picked@[picked@.len() - ("?tf"@).len() - 1] == '/');
                            assert(has_slash(picked@));
                        }
                    }
                    Some(picked)
                }
            },
            None => None,
        }
    }

    /// The well-known location of the stored record, relative to the
    /// application's configuration directory.
    pub fn relative_path() -> (r: String)
        ensures
            r@ == "ajour.yml"@,
    {
        let s: &str = "ajour.yml";
        s.to_owned()
    }
}

/// Law: the canonical add-on directory always has a parent, namely the
/// flavor's `Interface` directory, so whenever resolution settles on the
/// canonical path the download-staging directory is exactly one segment
/// above the add-on directory.
pub proof fn lemma_canonical_staging_is_parent(root: Seq<char>, f: Flavor)
    ensures
        spec_parent(addon_canonical(root, f)) == Some(
            root + "/"@ + spec_folder_name(f) + "/"@ + "Interface"@,
        ),
{
    reveal_strlit("/");
    reveal_strlit("Interface");
    reveal_strlit("Interface/AddOns");
    let c = addon_canonical(root, f);
    let prefix = root + "/"@ + spec_folder_name(f) + "/"@;
    let plen = prefix.len() as int;
    let j = plen + 9;
    assert(c =~= prefix + "Interface/AddOns"@);
    assert(("Interface/AddOns"@).len() == 16);
    assert(c.len() == plen + 16);
    assert(c[j] == '/');
    assert(crate::paths::has_slash(c));
    assert forall|k: int| j < k < c.len() implies c[k] != '/' by {
        assert(c[k] == ("Interface/AddOns"@)[k - plen]);
    }
    crate::paths::lemma_last_slash_index(c);
    let js = crate::paths::last_slash_index(c);
    if js != j {
        if js < j {
            assert(c[j] == '/');
        } else {
            assert(c[js] != '/');
        }
        assert(false);
    }
    assert(c.take(j) =~= root + "/"@ + spec_folder_name(f) + "/"@ + "Interface"@);
}

/// A field value read from stored data, or its documented default when the
/// stored data omits the field.
pub open spec fn field_or<T>(stored: Option<T>, default: T) -> T {
    match stored {
        Some(v) => v,
        None => default,
    }
}

/// The configuration record as it comes out of stored data: every field
/// optional, because each schema generation added fields that older stored
/// files do not have. Defaulting is applied field by field, never to the
/// whole record, so older files load without losing the fields they do
/// carry; see [`Config::from_partial`].
pub struct PartialConfig {
    pub wow: Option<Wow>,
    pub theme: Option<String>,
    pub column_config: Option<ColumnConfig>,
    pub window_size: Option<(u32, u32)>,
    pub scale: Option<u64>,
    pub backup_directory: Option<String>,
    pub backup_addons: Option<bool>,
    pub backup_wtf: Option<bool>,
    pub hide_ignored_addons: Option<bool>,
    pub self_update_channel: Option<SelfUpdateChannel>,
    pub weak_auras_account: Option<AccountKeys>,
    pub alternating_row_colors: Option<bool>,
    pub language: Option<Language>,
}

/// The record a stored set of field values loads into: every field the
/// stored data carries is kept, every absent field takes its documented
/// default.
pub open spec fn from_partial_spec(p: PartialConfig) -> Config {
    Config {
        wow: field_or(p.wow, spec_default_config().wow),
        theme: p.theme,
        column_config: field_or(p.column_config, spec_default_column_config()),
        window_size: p.window_size,
        scale: p.scale,
        backup_directory: p.backup_directory,
        backup_addons: field_or(p.backup_addons, false),
        backup_wtf: field_or(p.backup_wtf, false),
        hide_ignored_addons: field_or(p.hide_ignored_addons, false),
        self_update_channel: field_or(p.self_update_channel, SelfUpdateChannel::Stable),
        weak_auras_account: field_or(p.weak_auras_account, spec_default_config().weak_auras_account),
        alternating_row_colors: field_or(p.alternating_row_colors, true),
        language: field_or(p.language, Language::English),
    }
}

/// The stored field values of a record: every field present.
pub open spec fn to_partial_spec(c: Config) -> PartialConfig {
    PartialConfig {
        wow: Some(c.wow),
        theme: c.theme,
        column_config: Some(c.column_config),
        window_size: c.window_size,
        scale: c.scale,
        backup_directory: c.backup_directory,
        backup_addons: Some(c.backup_addons),
        backup_wtf: Some(c.backup_wtf),
        hide_ignored_addons: Some(c.hide_ignored_addons),
        self_update_channel: Some(c.self_update_channel),
        weak_auras_account: Some(c.weak_auras_account),
        alternating_row_colors: Some(c.alternating_row_colors),
        language: Some(c.language),
    }
}

/// Law: storing a record field by field and loading it back yields the
/// record unchanged, whichever column-layout generation it carries. The
/// converse does not hold: loading fills absent fields with defaults.
pub proof fn lemma_partial_round_trip(c: Config)
    ensures
        from_partial_spec(to_partial_spec(c)) == c,
{
}

impl Config {
    /// Fills a record from stored field values; see `from_partial_spec`.
    pub fn from_partial(p: PartialConfig) -> (r: Config)
        ensures
            r == from_partial_spec(p),
    {
        Config {
            wow: match p.wow {
                Some(w) => w,
                None => Wow { directory: None },
            },
            theme: p.theme,
            column_config: match p.column_config {
                Some(c) => c,
                None => ColumnConfig::V1 {
                    local_version_width: 150,
                    remote_version_width: 150,
                    status_width: 85,
                },
            },
            window_size: p.window_size,
            scale: p.scale,
            backup_directory: p.backup_directory,
            backup_addons: match p.backup_addons {
                Some(b) => b,
                None => false,
            },
            backup_wtf: match p.backup_wtf {
                Some(b) => b,
                None => false,
            },
            hide_ignored_addons: match p.hide_ignored_addons {
                Some(b) => b,
                None => false,
            },
            self_update_channel: match p.self_update_channel {
                Some(c) => c,
                None => SelfUpdateChannel::Stable,
            },
            weak_auras_account: match p.weak_auras_account {
                Some(a) => a,
                None => AccountKeys {
                    retail: None,
                    retail_ptr: None,
                    retail_beta: None,
                    classic: None,
                },
            },
            alternating_row_colors: match p.alternating_row_colors {
                Some(b) => b,
                None => crate::default_true(),
            },
            language: match p.language {
                Some(l) => l,
                None => Language::English,
            },
        }
    }

    /// Takes the record apart into stored field values, every field
    /// present; see `to_partial_spec`.
    pub fn to_partial(self) -> (r: PartialConfig)
        ensures
            r == to_partial_spec(self),
    {
        PartialConfig {
            wow: Some(self.wow),
            theme: self.theme,
            column_config: Some(self.column_config),
            window_size: self.window_size,
            scale: self.scale,
            backup_directory: self.backup_directory,
            backup_addons: Some(self.backup_addons),
            backup_wtf: Some(self.backup_wtf),
            hide_ignored_addons: Some(self.hide_ignored_addons),
            self_update_channel: Some(self.self_update_channel),
            weak_auras_account: Some(self.weak_auras_account),
            alternating_row_colors: Some(self.alternating_row_colors),
            language: Some(self.language),
        }
    }
}

/// What the surrounding application found at the persisted location.
pub enum LoadOutcome {
    /// Nothing is stored there yet.
    Missing,
    /// Something is stored there but could not be parsed; carries the
    /// parser's message.
    Corrupt(String),
    /// A record was read and parsed.
    Loaded(Config),
}

/// The load-or-default rule: a missing file yields the all-defaults record
/// and asks the caller to persist it, a parsed record is taken as is, and
/// corruption is surfaced as an error rather than silently resetting the
/// user's settings. The `bool` in the result says whether the record must
/// be persisted now.
pub fn load_or_default_step(outcome: LoadOutcome) -> (r: Result<(Config, bool), String>)
    ensures
        match outcome {
            LoadOutcome::Missing => r matches Ok(p) && p.0 == spec_default_config() && p.1,
            LoadOutcome::Loaded(c) => r matches Ok(p) && p.0 == c && !p.1,
            LoadOutcome::Corrupt(m) => r matches Err(e) && e == m,
        },
{
    match outcome {
        LoadOutcome::Missing => Ok((Config::default(), true)),
        LoadOutcome::Loaded(c) => Ok((c, false)),
        LoadOutcome::Corrupt(m) => Err(m),
    }
}

} // verus!
