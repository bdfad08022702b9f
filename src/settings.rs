use vstd::prelude::*;

verus! {

/// How much the program logs.
#[derive(Debug, Clone, Copy, PartialEq, Eq, Structural)]
pub enum LogLevel {
    Error,
    Warn,
    Info,
    Debug,
    Trace,
}

/// The settings a run works with, after the command line and the config file
/// have been merged over the defaults.
#[derive(Debug)]
pub struct AppSettings {
    pub ring_name: String,
    pub ring_description: String,
    pub ring_owner: String,
    pub ring_owner_site: String,
    pub json_lists: Vec<String>,
    pub toml_lists: Vec<String>,
    pub filepath_list: Vec<String>,
    pub filename_template_redirect: String,
    pub path_output: String,
    pub path_assets: String,
    pub path_templates: String,
    pub base_url: String,
    pub next_url_text: String,
    pub prev_url_text: String,
    pub client_user_agent: String,
    pub client_header: String,
    pub audit_retries_max: u64,
    pub audit_retries_delay: u64,
    pub audit: bool,
    pub no_slug: bool,
    pub shuffle: bool,
    pub log_level: LogLevel,
    pub skip_minify: bool,
    pub skip_verify: bool,
    pub dry_run: bool,
}

/// The settings a config file may give; any of them may be missing.
#[derive(Debug, Default)]
pub struct ConfigSettings {
    pub ring_name: Option<String>,
    pub ring_description: Option<String>,
    pub ring_owner: Option<String>,
    pub ring_owner_site: Option<String>,
    pub json_list: Option<Vec<String>>,
    pub toml_list: Option<Vec<String>>,
    pub filepath_list: Option<Vec<String>>,
    pub filename_template_redirect: Option<String>,
    pub path_output: Option<String>,
    pub path_assets: Option<String>,
    pub path_templates: Option<String>,
    pub base_url: Option<String>,
    pub next_url_text: Option<String>,
    pub prev_url_text: Option<String>,
    pub client_user_agent: Option<String>,
    pub client_header: Option<String>,
    pub audit_retries_max: Option<u64>,
    pub audit_retries_delay: Option<u64>,
    pub audit: Option<bool>,
    pub no_slug: Option<bool>,
    pub shuffle: Option<bool>,
    pub verbose: Option<bool>,
    pub skip_minify: Option<bool>,
    pub skip_verify: Option<bool>,
    pub dry_run: Option<bool>,
}

/// The settings given on the command line.
#[derive(Debug)]
pub struct ClapSettings {
    pub input_path: Option<String>,
    pub filepath_config: Option<String>,
    pub json_list: Vec<String>,
    pub toml_list: Vec<String>,
    pub filepath_list: Vec<String>,
    pub filename_template_redirect: Option<String>,
    pub filename_template_random: Option<String>,
    pub path_output: Option<String>,
    pub path_assets: Option<String>,
    pub path_templates: Option<String>,
    pub base_url: Option<String>,
    pub next_url_text: Option<String>,
    pub prev_url_text: Option<String>,
    pub ring_name: Option<String>,
    pub ring_description: Option<String>,
    pub ring_owner: Option<String>,
    pub ring_owner_site: Option<String>,
    pub audit: bool,
    pub audit_retries_max: Option<u64>,
    pub audit_retries_delay: Option<u64>,
    pub client_user_agent: Option<String>,
    pub client_header: Option<String>,
    pub shuffle: bool,
    pub verbose: u8,
    pub no_slug: bool,
    pub skip_minify: bool,
    pub skip_verify: bool,
    pub dry_run: bool,
}

pub const DEFAULT_RING_NAME: &'static str = "webring";
pub const DEFAULT_RING_DESCRIPTION: &'static str = "A ring that connects websites to each other with links";
pub const DEFAULT_RING_OWNER: &'static str = "Webring Organization or Person";
pub const DEFAULT_RING_OWNER_SITE: &'static str = "https://webring.domain.tld/";
pub const DEFAULT_LIST_PATH: &'static str = "./websites.json";
pub const DEFAULT_REDIRECT_TEMPLATE: &'static str = "redirect.html";
pub const DEFAULT_PATH_OUTPUT: &'static str = "./webring";
pub const DEFAULT_PATH_ASSETS: &'static str = "./data/assets";
pub const DEFAULT_PATH_TEMPLATES: &'static str = "./data/templates";
pub const DEFAULT_BASE_URL: &'static str = " ";
pub const DEFAULT_NEXT_TEXT: &'static str = "next";
pub const DEFAULT_PREV_TEXT: &'static str = "previous";
pub const DEFAULT_USER_AGENT: &'static str = "Mozilla/5.0 (Windows NT 10.0; Win64; x64) AppleWebKit/537.36 (KHTML, like Gecko) Chrome/90.0.4430.212 Safari/537.36";
pub const DEFAULT_ACCEPT: &'static str = "text/html,application/xhtml+xml,application/xml;q=0.9,image/webp,*/*;q=0.8";
pub const DEFAULT_RETRIES_DELAY: u64 = 100;
pub const DEFAULT_RETRIES_MAX: u64 = 2;

/// The default settings, field by field.
pub open spec fn is_default(s: AppSettings) -> bool {
    &&& s.ring_name@ == DEFAULT_RING_NAME@
    &&& s.ring_description@ == DEFAULT_RING_DESCRIPTION@
    &&& s.ring_owner@ == DEFAULT_RING_OWNER@
    &&& s.ring_owner_site@ == DEFAULT_RING_OWNER_SITE@
    &&& s.json_lists@.len() == 0
    &&& s.toml_lists@.len() == 0
    &&& s.filepath_list.deep_view() == seq![DEFAULT_LIST_PATH@]
    &&& s.filename_template_redirect@ == DEFAULT_REDIRECT_TEMPLATE@
    &&& s.path_output@ == DEFAULT_PATH_OUTPUT@
    &&& s.path_assets@ == DEFAULT_PATH_ASSETS@
    &&& s.path_templates@ == DEFAULT_PATH_TEMPLATES@
    &&& s.base_url@ == DEFAULT_BASE_URL@
    &&& s.next_url_text@ == DEFAULT_NEXT_TEXT@
    &&& s.prev_url_text@ == DEFAULT_PREV_TEXT@
    &&& s.client_user_agent@ == DEFAULT_USER_AGENT@
    &&& s.client_header@ == DEFAULT_ACCEPT@
    &&& s.audit_retries_delay == DEFAULT_RETRIES_DELAY
    &&& s.audit_retries_max == DEFAULT_RETRIES_MAX
    &&& !s.audit
    &&& !s.no_slug
    &&& !s.shuffle
    &&& s.log_level == LogLevel::Error
    &&& !s.skip_minify
    &&& !s.skip_verify
    &&& !s.dry_run
}

impl Default for AppSettings {
    fn default() -> (r: AppSettings)
        ensures
            is_default(r),
    {
        let mut filepath_list: Vec<String> = Vec::new();
        filepath_list.push(String::from_str(DEFAULT_LIST_PATH));
        assert(filepath_list.deep_view() =~= seq![DEFAULT_LIST_PATH@]);
        AppSettings {
            ring_name: String::from_str(DEFAULT_RING_NAME),
            ring_description: String::from_str(DEFAULT_RING_DESCRIPTION),
            ring_owner: String::from_str(DEFAULT_RING_OWNER),
            ring_owner_site: String::from_str(DEFAULT_RING_OWNER_SITE),
            json_lists: Vec::new(),
            toml_lists: Vec::new(),
            filepath_list,
            filename_template_redirect: String::from_str(DEFAULT_REDIRECT_TEMPLATE),
            path_output: String::from_str(DEFAULT_PATH_OUTPUT),
            path_assets: String::from_str(DEFAULT_PATH_ASSETS),
            path_templates: String::from_str(DEFAULT_PATH_TEMPLATES),
            base_url: String::from_str(DEFAULT_BASE_URL),
            next_url_text: String::from_str(DEFAULT_NEXT_TEXT),
            prev_url_text: String::from_str(DEFAULT_PREV_TEXT),
            client_user_agent: String::from_str(DEFAULT_USER_AGENT),
            client_header: String::from_str(DEFAULT_ACCEPT),
            audit_retries_max: DEFAULT_RETRIES_MAX,
            audit_retries_delay: DEFAULT_RETRIES_DELAY,
            audit: false,
            no_slug: false,
            shuffle: false,
            log_level: LogLevel::Error,
            skip_minify: false,
            skip_verify: false,
            dry_run: false,
        }
    }
}

/// The command line's value, else the config file's, else the default.
pub open spec fn pick_text(cli: Option<String>, cfg: Option<String>, default: Seq<char>) -> Seq<char> {
    match cli {
        Some(s) => s@,
        None => match cfg {
            Some(s) => s@,
            None => default,
        },
    }
}

/// The command line's number, else the config file's, else the default.
pub open spec fn pick_number(cli: Option<u64>, cfg: Option<u64>, default: u64) -> u64 {
    match cli {
        Some(n) => n,
        None => match cfg {
            Some(n) => n,
            None => default,
        },
    }
}

/// A switch is on when the command line sets it, else as the config file
/// says, else as the default says.
pub open spec fn pick_flag(cli: bool, cfg: Option<bool>, default: bool) -> bool {
    cli || match cfg {
        Some(b) => b,
        None => default,
    }
}

/// The texts of an optional list, none where it is absent.
pub open spec fn list_texts(list: Option<Vec<String>>) -> Seq<Seq<char>> {
    match list {
        Some(v) => v.deep_view(),
        None => Seq::empty(),
    }
}

/// The texts of `s` with each repeat of an earlier one left out.
pub open spec fn distinct_in_order(s: Seq<Seq<char>>) -> Seq<Seq<char>>
    decreases s.len(),
{
    if s.len() == 0 {
        s
    } else {
        let d = distinct_in_order(s.drop_last());
        if d.contains(s.last()) {
            d
        } else {
            d.push(s.last())
        }
    }
}

/// The log level: the command line's count of `-v` decides where it is given
/// (one warn, two info, three debug, more trace); otherwise the config file's
/// verbose switch turns on warnings, and only errors are logged by default.
pub open spec fn level_for(cli_verbose: u8, cfg_verbose: Option<bool>) -> LogLevel {
    if cli_verbose == 0 {
        if cfg_verbose == Some(true) {
            LogLevel::Warn
        } else {
            LogLevel::Error
        }
    } else if cli_verbose == 1 {
        LogLevel::Warn
    } else if cli_verbose == 2 {
        LogLevel::Info
    } else if cli_verbose == 3 {
        LogLevel::Debug
    } else {
        LogLevel::Trace
    }
}

/// `s` is what merging the command line `cli` and the config file `cfg` over
/// the defaults gives.
pub open spec fn merged(s: AppSettings, cli: ClapSettings, cfg: ConfigSettings) -> bool {
    &&& s.ring_name@ == pick_text(cli.ring_name, cfg.ring_name, DEFAULT_RING_NAME@)
    &&& s.ring_description@ == pick_text(
        cli.ring_description,
        cfg.ring_description,
        DEFAULT_RING_DESCRIPTION@,
    )
    &&& s.ring_owner@ == pick_text(cli.ring_owner, cfg.ring_owner, DEFAULT_RING_OWNER@)
    &&& s.ring_owner_site@ == pick_text(
        cli.ring_owner_site,
        cfg.ring_owner_site,
        DEFAULT_RING_OWNER_SITE@,
    )
    &&& s.json_lists.deep_view() == cli.json_list.deep_view() + list_texts(cfg.json_list)
    &&& s.toml_lists.deep_view() == cli.toml_list.deep_view() + list_texts(cfg.toml_list)
    &&& s.filepath_list.deep_view() == distinct_in_order(
        cli.filepath_list.deep_view() + list_texts(cfg.filepath_list),
    )
    &&& s.filename_template_redirect@ == pick_text(
        cli.filename_template_redirect,
        cfg.filename_template_redirect,
        DEFAULT_REDIRECT_TEMPLATE@,
    )
    &&& s.path_output@ == pick_text(cli.path_output, cfg.path_output, DEFAULT_PATH_OUTPUT@)
    &&& s.path_assets@ == pick_text(cli.path_assets, cfg.path_assets, DEFAULT_PATH_ASSETS@)
    &&& s.path_templates@ == pick_text(
        cli.path_templates,
        cfg.path_templates,
        DEFAULT_PATH_TEMPLATES@,
    )
    &&& s.base_url@ == pick_text(cli.base_url, cfg.base_url, DEFAULT_BASE_URL@)
    &&& s.next_url_text@ == pick_text(cli.next_url_text, cfg.next_url_text, DEFAULT_NEXT_TEXT@)
    &&& s.prev_url_text@ == pick_text(cli.prev_url_text, cfg.prev_url_text, DEFAULT_PREV_TEXT@)
    &&& s.client_user_agent@ == pick_text(
        cli.client_user_agent,
        cfg.client_user_agent,
        DEFAULT_USER_AGENT@,
    )
    &&& s.client_header@ == pick_text(cli.client_header, cfg.client_header, DEFAULT_ACCEPT@)
    &&& s.audit_retries_max == pick_number(
        cli.audit_retries_max,
        cfg.audit_retries_max,
        DEFAULT_RETRIES_MAX,
    )
    &&& s.audit_retries_delay == pick_number(
        cli.audit_retries_delay,
        cfg.audit_retries_delay,
        DEFAULT_RETRIES_DELAY,
    )
    &&& s.audit == pick_flag(cli.audit, cfg.audit, false)
    &&& s.no_slug == pick_flag(cli.no_slug, cfg.no_slug, false)
    &&& s.shuffle == pick_flag(cli.shuffle, cfg.shuffle, false)
    &&& s.skip_minify == pick_flag(cli.skip_minify, cfg.skip_minify, false)
    &&& s.skip_verify == pick_flag(cli.skip_verify, cfg.skip_verify, false)
    &&& s.dry_run == pick_flag(cli.dry_run, cfg.dry_run, false)
    &&& s.log_level == level_for(cli.verbose, cfg.verbose)
}

fn pick(cli: Option<String>, cfg: Option<String>, default: String) -> (r: String)
    ensures
        r@ == pick_text(cli, cfg, default@),
{
    match cli {
        Some(s) => s,
        None => match cfg {
            Some(s) => s,
            None => default,
        },
    }
}

fn pick_num(cli: Option<u64>, cfg: Option<u64>, default: u64) -> (r: u64)
    ensures
        r == pick_number(cli, cfg, default),
{
    match cli {
        Some(n) => n,
        None => match cfg {
            Some(n) => n,
            None => default,
        },
    }
}

fn pick_switch(cli: bool, cfg: Option<bool>, default: bool) -> (r: bool)
    ensures
        r == pick_flag(cli, cfg, default),
{
    cli || match cfg {
        Some(b) => b,
        None => default,
    }
}

/// The command line's list followed by the config file's.
fn join_lists(first: Vec<String>, second: Option<Vec<String>>) -> (r: Vec<String>)
    ensures
        r.deep_view() == first.deep_view() + list_texts(second),
{
    let mut r = first;
    match second {
        Some(v) => {
            let mut v = v;
            let ghost head = r@;
            let ghost tail = v@;
            r.append(&mut v);
            assert(r@ == head + tail);
            assert(r.deep_view() =~= first.deep_view() + list_texts(second));
        },
        None => {
            assert(r.deep_view() =~= first.deep_view() + list_texts(second));
        },
    }
    r
}

/// The paths of `all` with each repeat of an earlier one left out.
pub fn distinct_paths(all: Vec<String>) -> (r: Vec<String>)
    ensures
        r.deep_view() == distinct_in_order(all.deep_view()),
{
    let n = all.len();
    let ghost items = all.deep_view();
    let mut out: Vec<String> = Vec::new();
    let mut i: usize = 0;
    while i < n
        invariant
            n == all@.len(),
            items == all.deep_view(),
            i <= n,
            out.deep_view() == distinct_in_order(items.take(i as int)),
        decreases n - i,
    {
        let candidate = &all[i];
        let mut seen = false;
        let mut j: usize = 0;
        while j < out.len()
            invariant
                j <= out@.len(),
                seen <==> exists|k: int| 0 <= k < j && (#[trigger] out.deep_view()[k]) == candidate@,
            decreases out@.len() - j,
        {
            if out[j] == *candidate {
                assert(out.deep_view()[j as int] == candidate@);
                seen = true;
            }
            j = j + 1;
        }
        assert(items.take(i + 1).drop_last() == items.take(i as int));
        assert(items.take(i + 1).last() == candidate@);
        if !seen {
            let ghost before = out.deep_view();
            out.push(candidate.clone());
            assert(out.deep_view() =~= before.push(candidate@));
        } else {
            assert(out.deep_view().contains(candidate@));
        }
        i = i + 1;
    }
    assert(items.take(n as int) == items);
    out
}

/// The log level that the command line's `-v` count and the config file's
/// verbose switch ask for.
pub fn log_level(cli_verbose: u8, config_verbose: Option<bool>) -> (r: LogLevel)
    ensures
        r == level_for(cli_verbose, config_verbose),
{
    if cli_verbose == 0 {
        match config_verbose {
            Some(true) => LogLevel::Warn,
            _ => LogLevel::Error,
        }
    } else if cli_verbose == 1 {
        LogLevel::Warn
    } else if cli_verbose == 2 {
        LogLevel::Info
    } else if cli_verbose == 3 {
        LogLevel::Debug
    } else {
        LogLevel::Trace
    }
}

/// Merges the command line and the config file over the defaults: a value
/// given on the command line wins over the config file's, which wins over the
/// default; a switch is on when either source turns it on; the site lists of
/// both sources are kept, command line first, with repeated paths dropped.
pub fn merge_configs(cli_args: ClapSettings, config: ConfigSettings) -> (r: AppSettings)
    ensures
        merged(r, cli_args, config),
{
    let d = AppSettings::default();
    let all_paths = join_lists(cli_args.filepath_list, config.filepath_list);
    AppSettings {
        ring_name: pick(cli_args.ring_name, config.ring_name, d.ring_name),
        ring_description: pick(cli_args.ring_description, config.ring_description, d.ring_description),
        ring_owner: pick(cli_args.ring_owner, config.ring_owner, d.ring_owner),
        ring_owner_site: pick(cli_args.ring_owner_site, config.ring_owner_site, d.ring_owner_site),
        json_lists: join_lists(cli_args.json_list, config.json_list),
        toml_lists: join_lists(cli_args.toml_list, config.toml_list),
        filepath_list: distinct_paths(all_paths),
        filename_template_redirect: pick(
            cli_args.filename_template_redirect,
            config.filename_template_redirect,
            d.filename_template_redirect,
        ),
        path_output: pick(cli_args.path_output, config.path_output, d.path_output),
        path_assets: pick(cli_args.path_assets, config.path_assets, d.path_assets),
        path_templates: pick(cli_args.path_templates, config.path_templates, d.path_templates),
        base_url: pick(cli_args.base_url, config.base_url, d.base_url),
        next_url_text: pick(cli_args.next_url_text, config.next_url_text, d.next_url_text),
        prev_url_text: pick(cli_args.prev_url_text, config.prev_url_text, d.prev_url_text),
        client_user_agent: pick(cli_args.client_user_agent, config.client_user_agent, d.client_user_agent),
        client_header: pick(cli_args.client_header, config.client_header, d.client_header),
        audit_retries_max: pick_num(cli_args.audit_retries_max, config.audit_retries_max, d.audit_retries_max),
        audit_retries_delay: pick_num(
            cli_args.audit_retries_delay,
            config.audit_retries_delay,
            d.audit_retries_delay,
        ),
        audit: pick_switch(cli_args.audit, config.audit, d.audit),
        no_slug: pick_switch(cli_args.no_slug, config.no_slug, d.no_slug),
        shuffle: pick_switch(cli_args.shuffle, config.shuffle, d.shuffle),
        log_level: log_level(cli_args.verbose, config.verbose),
        skip_minify: pick_switch(cli_args.skip_minify, config.skip_minify, d.skip_minify),
        skip_verify: pick_switch(cli_args.skip_verify, config.skip_verify, d.skip_verify),
        dry_run: pick_switch(cli_args.dry_run, config.dry_run, d.dry_run),
    }
}

} // verus!
