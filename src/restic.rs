use vstd::prelude::*;

use crate::args::{
    count_opt, opt_items, opt_list_view, push_arg, push_count, push_each, push_each_opt, push_switch, push_value,
    repeated, switch, value_opt,
};
use crate::config::{ResticConfig, ResticForget};
use crate::credentials::opt_view;
use crate::text::{decimal, decimal_of, views};

verus! {

/// One run of the archival tool: its arguments, the program first, and the
/// variables added to its environment.
pub struct Invocation {
    pub args: Vec<String>,
    pub env: Vec<(String, String)>,
}

/// `-o` and the backend option, when there is one.
pub open spec fn option_args(opt: Option<Seq<char>>) -> Seq<Seq<char>> {
    match opt {
        Some(o) => seq!["-o"@, o],
        None => Seq::empty(),
    }
}

/// `--dry-run` in a dry run.
pub open spec fn dry_args(dry: bool) -> Seq<Seq<char>> {
    if dry {
        seq!["--dry-run"@]
    } else {
        Seq::empty()
    }
}

/// The retention command: each policy field only where it is configured.
pub open spec fn forget_args(
    c: ResticForget,
    repo: Seq<char>,
    dry: bool,
    opt: Option<Seq<char>>,
) -> Seq<Seq<char>> {
    seq!["restic"@, "forget"@] + switch(c.compact, "--compact"@) + count_opt(
        c.keep_last,
        "--keep-last"@,
    ) + count_opt(c.keep_hourly, "--keep-hourly"@) + count_opt(c.keep_daily, "--keep-daily"@)
        + count_opt(c.keep_weekly, "--keep-weekly"@) + count_opt(
        c.keep_monthly,
        "--keep-monthly"@,
    ) + count_opt(c.keep_yearly, "--keep-yearly"@) + count_opt(c.keep_within, "--keep-within"@)
        + count_opt(c.keep_within_hourly, "--keep-within-hourly"@) + count_opt(
        c.keep_within_daily,
        "--keep-within-daily"@,
    ) + count_opt(c.keep_within_weekly, "--keep-within-weekly"@) + count_opt(
        c.keep_within_monthly,
        "--keep-within-monthly"@,
    ) + count_opt(c.keep_within_yearly, "--keep-within-yearly"@) + repeated(
        "--keep-tag"@,
        opt_items(c.keep_tag),
    ) + switch(c.unsafe_allow_remove_all, "--unsafe-allow-remove-all"@) + repeated(
        "--host"@,
        opt_items(c.host),
    ) + repeated("--tag"@, opt_items(c.tag)) + repeated("--path"@, opt_items(c.path)) + value_opt(
        c.group_by,
        "--group-by"@,
    ) + switch(c.prune, "--prune"@) + value_opt(c.max_unused, "--max-unused"@) + value_opt(
        c.max_repack_size,
        "--max-repack-size"@,
    ) + switch(c.repack_cacheable_only, "--repack-cacheable-only"@) + switch(
        c.repack_small,
        "--repack-small"@,
    ) + switch(c.repack_uncompressed, "--repack-uncompressed"@) + value_opt(
        c.repack_smaller_than,
        "--repack-smaller-than"@,
    ) + dry_args(dry) + seq!["-r"@, repo] + option_args(opt)
}

/// Appends `-o` and the backend option, when there is one.
fn push_option(v: &mut Vec<String>, opt: &Option<String>)
    ensures
        views(final(v)@) == views(old(v)@) + option_args(opt_view(*opt)),
{
    match opt {
        Some(o) => {
            push_arg(v, "-o");
            push_arg(v, o.as_str());
            assert(views(v@) =~= views(old(v)@) + option_args(opt_view(*opt)));
        },
        None => {
            assert(views(v@) =~= views(old(v)@) + option_args(opt_view(*opt)));
        },
    }
}

/// Appends `--dry-run` in a dry run.
fn push_dry(v: &mut Vec<String>, dry: bool)
    ensures
        views(final(v)@) == views(old(v)@) + dry_args(dry),
{
    if dry {
        push_arg(v, "--dry-run");
    } else {
        assert(views(v@) =~= views(old(v)@) + dry_args(dry));
    }
}

/// The retention command for one repository.
pub fn forget_command(c: &ResticForget, repo: &str, dry: bool, opt: &Option<String>) -> (r: Vec<
    String,
>)
    ensures
        views(r@) == forget_args(*c, repo@, dry, opt_view(*opt)),
{
    let mut v: Vec<String> = Vec::new();
    push_arg(&mut v, "restic");
    push_arg(&mut v, "forget");
    assert(views(v@) =~= seq!["restic"@, "forget"@]);
    push_switch(&mut v, c.compact, "--compact");
    push_count(&mut v, c.keep_last, "--keep-last");
    push_count(&mut v, c.keep_hourly, "--keep-hourly");
    push_count(&mut v, c.keep_daily, "--keep-daily");
    push_count(&mut v, c.keep_weekly, "--keep-weekly");
    push_count(&mut v, c.keep_monthly, "--keep-monthly");
    push_count(&mut v, c.keep_yearly, "--keep-yearly");
    push_count(&mut v, c.keep_within, "--keep-within");
    push_count(&mut v, c.keep_within_hourly, "--keep-within-hourly");
    push_count(&mut v, c.keep_within_daily, "--keep-within-daily");
    push_count(&mut v, c.keep_within_weekly, "--keep-within-weekly");
    push_count(&mut v, c.keep_within_monthly, "--keep-within-monthly");
    push_count(&mut v, c.keep_within_yearly, "--keep-within-yearly");
    push_each_opt(&mut v, &c.keep_tag, "--keep-tag");
    push_switch(&mut v, c.unsafe_allow_remove_all, "--unsafe-allow-remove-all");
    push_each_opt(&mut v, &c.host, "--host");
    push_each_opt(&mut v, &c.tag, "--tag");
    push_each_opt(&mut v, &c.path, "--path");
    push_value(&mut v, &c.group_by, "--group-by");
    push_switch(&mut v, c.prune, "--prune");
    push_value(&mut v, &c.max_unused, "--max-unused");
    push_value(&mut v, &c.max_repack_size, "--max-repack-size");
    push_switch(&mut v, c.repack_cacheable_only, "--repack-cacheable-only");
    push_switch(&mut v, c.repack_small, "--repack-small");
    push_switch(&mut v, c.repack_uncompressed, "--repack-uncompressed");
    push_value(&mut v, &c.repack_smaller_than, "--repack-smaller-than");
    push_dry(&mut v, dry);
    push_arg(&mut v, "-r");
    push_arg(&mut v, repo);
    push_option(&mut v, opt);
    v
}

/// Arguments of an archive run.
pub struct ResticBackupCommandArgs {
    pub exclude: Option<Vec<String>>,
    pub exclude_if_present: Option<Vec<String>>,
    pub one_file_system: bool,
    pub read_concurrency: u64,
    pub tag: Vec<String>,
    pub reread: bool,
    pub exclude_caches: bool,
    pub option: Vec<String>,
    pub dry_run: bool,
    pub compression: String,
    pub quiet: bool,
    pub json: bool,
    pub host: Option<String>,
    pub repo: String,
    pub positional_0_dir: Vec<String>,
}

/// `name` when `b` holds.
pub open spec fn bool_arg(b: bool, name: Seq<char>) -> Seq<Seq<char>> {
    switch(Some(b), name)
}

/// The archive command for a set of arguments.
pub open spec fn backup_args(a: ResticBackupCommandArgs) -> Seq<Seq<char>> {
    seq!["restic"@, "backup"@] + repeated("--exclude"@, opt_items(a.exclude)) + repeated(
        "--exclude-if-present"@,
        opt_items(a.exclude_if_present),
    ) + bool_arg(a.one_file_system, "--one-file-system"@) + seq![
        "--read-concurrency"@,
        decimal_of(a.read_concurrency as nat),
    ] + repeated("--tag"@, views(a.tag@)) + bool_arg(a.reread, "--force"@) + bool_arg(
        a.exclude_caches,
        "--exclude-caches"@,
    ) + repeated("-o"@, views(a.option@)) + dry_args(a.dry_run) + seq![
        "--compression"@,
        a.compression@,
    ] + bool_arg(a.quiet, "--quiet"@) + bool_arg(a.json, "--json"@) + value_opt(a.host, "--host"@)
        + seq!["-r"@, a.repo@] + views(a.positional_0_dir@)
}

/// The read concurrency of a job (default 2).
pub open spec fn concurrency(c: ResticConfig) -> u64 {
    match c.concurrency {
        Some(n) => n,
        None => 2,
    }
}

/// The compression mode of a job (default `auto`).
pub open spec fn compression(c: ResticConfig) -> Seq<char> {
    match c.compression {
        Some(m) => m@,
        None => "auto"@,
    }
}

/// A copy of a list of strings.
pub fn copy_strings(v: &Vec<String>) -> (r: Vec<String>)
    ensures
        views(r@) == views(v@),
{
    let mut r: Vec<String> = Vec::new();
    let mut i: usize = 0;
    while i < v.len()
        invariant
            i <= v.len(),
            views(r@) == views(v@.subrange(0, i as int)),
        decreases v.len() - i,
    {
        let c = v[i].clone();
        assert(c@ == v@[i as int]@);
        proof {
            crate::text::lemma_views_push(r@, c);
        }
        r.push(c);
        assert(views(v@.subrange(0, i + 1)) =~= views(v@.subrange(0, i as int)).push(v@[i as int]@));
        i = i + 1;
    }
    assert(v@.subrange(0, v.len() as int) =~= v@);
    r
}

fn copy_list(o: &Option<Vec<String>>) -> (r: Option<Vec<String>>)
    ensures
        opt_list_view(r) == opt_list_view(*o),
        opt_items(r) == opt_items(*o),
{
    match o {
        Some(v) => Some(copy_strings(v)),
        None => None,
    }
}

impl ResticBackupCommandArgs {
    /// The arguments a job asks for: read concurrency 2, compression `auto`
    /// and every switch off unless configured; no option, directory or
    /// repository yet.
    pub fn from_config(conf: &ResticConfig) -> (r: Self)
        ensures
            opt_list_view(r.exclude) == opt_list_view(conf.exclude),
            opt_list_view(r.exclude_if_present) == opt_list_view(conf.exclude_if_present),
            opt_items(r.exclude) == opt_items(conf.exclude),
            opt_items(r.exclude_if_present) == opt_items(conf.exclude_if_present),
            r.one_file_system == crate::input::flag(conf.one_file_system, false),
            r.read_concurrency == concurrency(*conf),
            views(r.tag@) == opt_items(conf.tags),
            r.reread == crate::input::flag(conf.reread, false),
            r.exclude_caches == crate::input::flag(conf.exclude_caches, false),
            r.option@.len() == 0,
            !r.dry_run,
            r.compression@ == compression(*conf),
            r.quiet == crate::input::flag(conf.quiet, false),
            r.json == crate::input::flag(conf.quiet, false),
            r.host == conf.host,
            r.repo@.len() == 0,
            r.positional_0_dir@.len() == 0,
    {
        let quiet = match conf.quiet {
            Some(q) => q,
            None => false,
        };
        let tag = match &conf.tags {
            Some(t) => copy_strings(t),
            None => Vec::new(),
        };
        proof {
            if conf.tags is None {
                assert(views(tag@) =~= Seq::<Seq<char>>::empty());
            }
        }
        ResticBackupCommandArgs {
            exclude: copy_list(&conf.exclude),
            exclude_if_present: copy_list(&conf.exclude_if_present),
            one_file_system: match conf.one_file_system {
                Some(b) => b,
                None => false,
            },
            read_concurrency: match conf.concurrency {
                Some(c) => c,
                None => 2,
            },
            tag,
            reread: match conf.reread {
                Some(b) => b,
                None => false,
            },
            exclude_caches: match conf.exclude_caches {
                Some(b) => b,
                None => false,
            },
            option: Vec::new(),
            dry_run: false,
            compression: match &conf.compression {
                Some(c) => c.clone(),
                None => "auto".to_owned(),
            },
            quiet,
            json: quiet,
            host: match &conf.host {
                Some(h) => Some(h.clone()),
                None => None,
            },
            repo: String::new(),
            positional_0_dir: Vec::new(),
        }
    }

    /// The archive command line.
    pub fn to_args(&self) -> (r: Vec<String>)
        ensures
            views(r@) == backup_args(*self),
    {
        let mut v: Vec<String> = Vec::new();
        push_arg(&mut v, "restic");
        push_arg(&mut v, "backup");
        assert(views(v@) =~= seq!["restic"@, "backup"@]);
        push_each_opt(&mut v, &self.exclude, "--exclude");
        push_each_opt(&mut v, &self.exclude_if_present, "--exclude-if-present");
        push_switch(&mut v, Some(self.one_file_system), "--one-file-system");
        let ghost mid = views(v@);
        push_arg(&mut v, "--read-concurrency");
        let d = decimal(self.read_concurrency);
        push_arg(&mut v, d.as_str());
        assert(views(v@) =~= mid + seq!["--read-concurrency"@, decimal_of(self.read_concurrency as nat)]);
        push_each(&mut v, &self.tag, "--tag");
        push_switch(&mut v, Some(self.reread), "--force");
        push_switch(&mut v, Some(self.exclude_caches), "--exclude-caches");
        push_each(&mut v, &self.option, "-o");
        push_dry(&mut v, self.dry_run);
        let ghost mid2 = views(v@);
        push_arg(&mut v, "--compression");
        push_arg(&mut v, self.compression.as_str());
        assert(views(v@) =~= mid2 + seq!["--compression"@, self.compression@]);
        push_switch(&mut v, Some(self.quiet), "--quiet");
        push_switch(&mut v, Some(self.json), "--json");
        push_value(&mut v, &self.host, "--host");
        let ghost mid3 = views(v@);
        push_arg(&mut v, "-r");
        push_arg(&mut v, self.repo.as_str());
        assert(views(v@) =~= mid3 + seq!["-r"@, self.repo@]);
        let ghost mid4 = views(v@);
        let mut i: usize = 0;
        while i < self.positional_0_dir.len()
            invariant
                i <= self.positional_0_dir.len(),
                views(v@) == mid4 + views(self.positional_0_dir@.subrange(0, i as int)),
            decreases self.positional_0_dir.len() - i,
        {
            push_arg(&mut v, self.positional_0_dir[i].as_str());
            assert(views(self.positional_0_dir@.subrange(0, i + 1)) =~= views(
                self.positional_0_dir@.subrange(0, i as int),
            ).push(self.positional_0_dir@[i as int]@));
            assert(views(v@) =~= mid4 + views(self.positional_0_dir@.subrange(0, i + 1)));
            i = i + 1;
        }
        assert(self.positional_0_dir@.subrange(0, self.positional_0_dir.len() as int)
            =~= self.positional_0_dir@);
        v
    }
}

/// The command that removes `tag` from `snapshot`, reporting the new
/// identifier as structured output.
pub open spec fn untag_args(repo: Seq<char>, opt: Option<Seq<char>>, snapshot: Seq<char>, tag: Seq<char>) -> Seq<Seq<char>> {
    seq!["restic"@, "tag"@, "--remove"@, tag] + option_args(opt) + seq![
        "--quiet"@,
        "--json"@,
        "-r"@,
        repo,
        snapshot,
    ]
}

/// The command that lists the snapshots of a repository as structured output.
pub open spec fn snapshots_args(repo: Seq<char>, opt: Option<Seq<char>>) -> Seq<Seq<char>> {
    seq!["restic"@, "snapshots"@, "--json"@] + option_args(opt) + seq!["-r"@, repo]
}

/// The command that initialises a repository.
pub open spec fn init_args(repo: Seq<char>, opt: Option<Seq<char>>) -> Seq<Seq<char>> {
    seq!["restic"@, "init"@] + option_args(opt) + seq!["-r"@, repo]
}

/// The command that removes `tag` from `snapshot`.
pub fn untag_command(repo: &str, opt: &Option<String>, snapshot: &str, tag: &str) -> (r: Vec<String>)
    ensures
        views(r@) == untag_args(repo@, opt_view(*opt), snapshot@, tag@),
{
    let mut v: Vec<String> = Vec::new();
    push_arg(&mut v, "restic");
    push_arg(&mut v, "tag");
    push_arg(&mut v, "--remove");
    push_arg(&mut v, tag);
    assert(views(v@) =~= seq!["restic"@, "tag"@, "--remove"@, tag@]);
    push_option(&mut v, opt);
    let ghost mid = views(v@);
    push_arg(&mut v, "--quiet");
    push_arg(&mut v, "--json");
    push_arg(&mut v, "-r");
    push_arg(&mut v, repo);
    push_arg(&mut v, snapshot);
    assert(views(v@) =~= mid + seq!["--quiet"@, "--json"@, "-r"@, repo@, snapshot@]);
    v
}

/// The command that lists the snapshots of a repository.
pub fn snapshots_command(repo: &str, opt: &Option<String>) -> (r: Vec<String>)
    ensures
        views(r@) == snapshots_args(repo@, opt_view(*opt)),
{
    let mut v: Vec<String> = Vec::new();
    push_arg(&mut v, "restic");
    push_arg(&mut v, "snapshots");
    push_arg(&mut v, "--json");
    assert(views(v@) =~= seq!["restic"@, "snapshots"@, "--json"@]);
    push_option(&mut v, opt);
    let ghost mid = views(v@);
    push_arg(&mut v, "-r");
    push_arg(&mut v, repo);
    assert(views(v@) =~= mid + seq!["-r"@, repo@]);
    v
}

/// The command that initialises a repository.
pub fn init_command(repo: &str, opt: &Option<String>) -> (r: Vec<String>)
    ensures
        views(r@) == init_args(repo@, opt_view(*opt)),
{
    let mut v: Vec<String> = Vec::new();
    push_arg(&mut v, "restic");
    push_arg(&mut v, "init");
    assert(views(v@) =~= seq!["restic"@, "init"@]);
    push_option(&mut v, opt);
    let ghost mid = views(v@);
    push_arg(&mut v, "-r");
    push_arg(&mut v, repo);
    assert(views(v@) =~= mid + seq!["-r"@, repo@]);
    v
}

} // verus!
