//! Plans of filesystem operations. The library never touches the
//! filesystem; it computes, for one run, the exact sequence of renames,
//! directory creations and file writes, and the embedding program carries
//! them out in order. A rename marked `missing_ok` tolerates a missing
//! source (there was nothing to archive or demote); every other failure of
//! any operation is fatal and aborts the run.

use vstd::prelude::*;

use crate::config::Config;
use crate::config::ConfigModel;
use crate::render::spec_acme_request;
use crate::render::spec_nginx_proxy;
use crate::render::acme_redirect_config_build;
use crate::render::nginx_proxy_build;
use crate::text::concat_str;
use crate::text::starts_with_str;

verus! {

/// One filesystem operation of a run's plan.
#[derive(Debug)]
pub enum FsOp {
    /// Rename `from` to `to`. When `missing_ok` is set, a missing `from` is
    /// "nothing to do"; any other failure is fatal.
    Rename { from: String, to: String, missing_ok: bool },
    /// Create this directory and its parents if they do not exist yet.
    EnsureDirAll { path: String },
    /// Write `content` to the file at `path`, replacing what was there.
    WriteFile { path: String, content: String },
}

/// The mathematical value of an `FsOp`.
pub enum FsOpModel {
    Rename { from: Seq<char>, to: Seq<char>, missing_ok: bool },
    EnsureDirAll { path: Seq<char> },
    WriteFile { path: Seq<char>, content: Seq<char> },
}

impl View for FsOp {
    type V = FsOpModel;

    open spec fn view(&self) -> FsOpModel {
        match self {
            FsOp::Rename { from, to, missing_ok } => FsOpModel::Rename {
                from: from@,
                to: to@,
                missing_ok: *missing_ok,
            },
            FsOp::EnsureDirAll { path } => FsOpModel::EnsureDirAll { path: path@ },
            FsOp::WriteFile { path, content } => FsOpModel::WriteFile {
                path: path@,
                content: content@,
            },
        }
    }
}

/// The values of a sequence of operations.
pub open spec fn plan_model(ops: Seq<FsOp>) -> Seq<FsOpModel> {
    ops.map_values(|op: FsOp| op@)
}

/// `name` placed inside `dir`.
pub open spec fn spec_join(dir: Seq<char>, name: Seq<char>) -> Seq<char> {
    dir + "/"@ + name
}

/// `name` placed inside `dir`.
pub fn join_path(dir: &str, name: &str) -> (r: String)
    ensures
        r@ == spec_join(dir@, name@),
{
    let mut r = dir.to_owned();
    r.append("/");
    r.append(name);
    r
}

/// The live proxy-configuration directory under the output root.
pub open spec fn spec_nginx_live(home: Seq<char>) -> Seq<char> {
    spec_join(home, "nginx"@)
}

/// The backup slot the previous proxy generation is demoted to.
pub open spec fn spec_nginx_backup(home: Seq<char>) -> Seq<char> {
    spec_join(home, "nginx-old"@)
}

/// The timestamped archive an older proxy backup is moved to.
pub open spec fn spec_nginx_archive(home: Seq<char>, ts: Seq<char>) -> Seq<char> {
    spec_join(home, "nginx-old-"@ + ts)
}

/// The backup subdirectory inside the certificate-request root.
pub open spec fn spec_acme_backup(root: Seq<char>) -> Seq<char> {
    spec_join(root, "web-distributor-old"@)
}

/// The timestamped archive an older certificate-request backup is moved to.
pub open spec fn spec_acme_archive(root: Seq<char>, ts: Seq<char>) -> Seq<char> {
    spec_join(root, "web-distributor-old-"@ + ts)
}

/// The proxy file name derived from a namespace.
pub open spec fn spec_nginx_file(namespace: Seq<char>) -> Seq<char> {
    namespace + ".nginx"@
}

/// The certificate-request file name derived from a namespace.
pub open spec fn spec_acme_file(namespace: Seq<char>) -> Seq<char> {
    "web-distributor."@ + namespace + ".conf"@
}

/// The write of one proxy file, as a function of a mapping entry.
pub open spec fn proxy_write_op(home: Seq<char>) -> spec_fn((Seq<char>, Seq<char>)) -> FsOpModel {
    |p: (Seq<char>, Seq<char>)|
        FsOpModel::WriteFile {
            path: spec_join(spec_nginx_live(home), spec_nginx_file(p.0)),
            content: spec_nginx_proxy(p.0, p.1),
        }
}

/// The whole proxy-side plan of one run: archive the previous backup,
/// demote the live directory to the backup slot, re-create the live
/// directory, then write one rendered proxy file per mapping entry.
pub open spec fn spec_webserver_plan(c: ConfigModel, ts: Seq<char>) -> Seq<FsOpModel> {
    seq![
        FsOpModel::Rename {
            from: spec_nginx_backup(c.home),
            to: spec_nginx_archive(c.home, ts),
            missing_ok: true,
        },
        FsOpModel::Rename {
            from: spec_nginx_live(c.home),
            to: spec_nginx_backup(c.home),
            missing_ok: true,
        },
        FsOpModel::EnsureDirAll { path: spec_nginx_live(c.home) },
    ] + c.mapping.map_values(proxy_write_op(c.home))
}

/// Plans the proxy-side work of one run over `config`, with the run's
/// generation timestamp `timestring`.
pub fn generate_webserver_configs(config: &Config, timestring: &str) -> (plan: Vec<FsOp>)
    ensures
        plan_model(plan@) == spec_webserver_plan(config@, timestring@),
{
    let home = config.home.as_str();
    let live = join_path(home, "nginx");
    let backup = join_path(home, "nginx-old");
    let archive_name = concat_str("nginx-old-", timestring);
    let archive = join_path(home, archive_name.as_str());

    let mut plan: Vec<FsOp> = Vec::new();
    plan.push(FsOp::Rename { from: backup.clone(), to: archive, missing_ok: true });
    plan.push(FsOp::Rename { from: live.clone(), to: backup, missing_ok: true });
    plan.push(FsOp::EnsureDirAll { path: live.clone() });

    let ghost head: Seq<FsOpModel> = plan_model(plan@);
    let ghost mapping: Seq<(Seq<char>, Seq<char>)> = config@.mapping;
    let ghost f = proxy_write_op(config@.home);
    proof {
        assert(head =~= spec_webserver_plan(config@, timestring@).take(3));
        assert(mapping.take(0).map_values(f) =~= Seq::<FsOpModel>::empty());
        assert(plan_model(plan@) =~= head + mapping.take(0).map_values(f));
    }

    let n = config.mapping.len();
    let mut i: usize = 0;
    while i < n
        invariant
            n == config.mapping@.len(),
            i <= n,
            mapping == config@.mapping,
            f == proxy_write_op(config@.home),
            head == spec_webserver_plan(config@, timestring@).take(3),
            live@ == spec_nginx_live(config@.home),
            plan_model(plan@) == head + mapping.take(i as int).map_values(f),
        decreases n - i,
    {
        let file_name = concat_str(config.mapping[i].0.as_str(), ".nginx");
        let path = join_path(live.as_str(), file_name.as_str());
        let content = nginx_proxy_build(
            config.mapping[i].0.as_str(),
            config.mapping[i].1.as_str(),
        );
        let op = FsOp::WriteFile { path, content };
        proof {
            assert(op@ == f(mapping[i as int]));
        }
        let ghost old_plan = plan@;
        plan.push(op);
        proof {
            old_plan.lemma_push_map_commute(|o: FsOp| o@, op);
            Seq::<FsOpModel>::push_distributes_over_add(
                head,
                mapping.take(i as int).map_values(f),
                f(mapping[i as int]),
            );
            mapping.lemma_map_take_succ(f, i as int);
        }
        i += 1;
    }
    proof {
        assert(mapping.take(n as int) == mapping) by {
            mapping.lemma_take_len();
        }
        assert(head + mapping.map_values(f) =~= spec_webserver_plan(config@, timestring@));
    }
    plan
}

/// The rotation at the head of the certificate-request side: archive the
/// previous backup subdirectory, then make sure a fresh one exists.
pub open spec fn spec_acme_rotation_plan(root: Seq<char>, ts: Seq<char>) -> Seq<FsOpModel> {
    seq![
        FsOpModel::Rename {
            from: spec_acme_backup(root),
            to: spec_acme_archive(root, ts),
            missing_ok: true,
        },
        FsOpModel::EnsureDirAll { path: spec_acme_backup(root) },
    ]
}

/// Plans the rotation of the certificate-request root's backup
/// subdirectory for one run.
pub fn acme_rotation_plan(config: &Config, timestring: &str) -> (plan: Vec<FsOp>)
    ensures
        plan_model(plan@) == spec_acme_rotation_plan(
            config@.acme_redirect_configs,
            timestring@,
        ),
{
    let root = config.acme_redirect_configs.as_str();
    let backup = join_path(root, "web-distributor-old");
    let archive_name = concat_str("web-distributor-old-", timestring);
    let archive = join_path(root, archive_name.as_str());
    let mut plan: Vec<FsOp> = Vec::new();
    plan.push(FsOp::Rename { from: backup.clone(), to: archive, missing_ok: true });
    plan.push(FsOp::EnsureDirAll { path: backup });
    proof {
        assert(plan_model(plan@) =~= spec_acme_rotation_plan(
            config@.acme_redirect_configs,
            timestring@,
        ));
    }
    plan
}

/// Whether the selective rotation moves a directory entry of this name:
/// the files this system writes carry the `web-distributor` prefix, and
/// anything already under the backup naming convention stays where it is.
pub open spec fn spec_selected(name: Seq<char>) -> bool {
    "web-distributor"@.is_prefix_of(name) && !"web-distributor-old"@.is_prefix_of(name)
}

/// The entry names the selective rotation moves, in their given order.
pub open spec fn selected_names(names: Seq<Seq<char>>) -> Seq<Seq<char>> {
    names.filter(|n: Seq<char>| spec_selected(n))
}

/// The move of one selected entry into the backup subdirectory.
pub open spec fn acme_move_op(root: Seq<char>) -> spec_fn(Seq<char>) -> FsOpModel {
    |n: Seq<char>|
        FsOpModel::Rename {
            from: spec_join(root, n),
            to: spec_join(spec_acme_backup(root), n),
            missing_ok: false,
        }
}

/// The selective-move plan: every selected entry of the root, moved into
/// the backup subdirectory; nothing else is touched.
pub open spec fn spec_acme_moves(root: Seq<char>, names: Seq<Seq<char>>) -> Seq<FsOpModel> {
    selected_names(names).map_values(acme_move_op(root))
}

/// Plans the selective move of this system's previously written files,
/// `entries` being the names found in the certificate-request root.
pub fn acme_backup_moves(config: &Config, entries: &Vec<String>) -> (plan: Vec<FsOp>)
    ensures
        plan_model(plan@) == spec_acme_moves(
            config@.acme_redirect_configs,
            entries@.map_values(|e: String| e@),
        ),
{
    let root = config.acme_redirect_configs.as_str();
    let backup = join_path(root, "web-distributor-old");
    let ghost names: Seq<Seq<char>> = entries@.map_values(|e: String| e@);
    let ghost f = acme_move_op(config@.acme_redirect_configs);
    let ghost p = |n: Seq<char>| spec_selected(n);
    let mut plan: Vec<FsOp> = Vec::new();
    proof {
        reveal(Seq::filter);
        assert(plan_model(plan@) =~= names.take(0).filter(p).map_values(f));
    }
    let n = entries.len();
    let mut i: usize = 0;
    while i < n
        invariant
            n == entries@.len(),
            i <= n,
            names == entries@.map_values(|e: String| e@),
            f == acme_move_op(config@.acme_redirect_configs),
            p == (|n: Seq<char>| spec_selected(n)),
            backup@ == spec_acme_backup(config@.acme_redirect_configs),
            root@ == config@.acme_redirect_configs,
            plan_model(plan@) == names.take(i as int).filter(p).map_values(f),
        decreases n - i,
    {
        let entry = entries[i].as_str();
        let selected = starts_with_str(entry, "web-distributor") && !starts_with_str(
            entry,
            "web-distributor-old",
        );
        proof {
            assert(names[i as int] == entry@);
            assert(selected == p(names[i as int]));
            names.lemma_take_succ_push(i as int);
            lemma_filter_push(names.take(i as int), names[i as int], p);
        }
        if selected {
            let op = FsOp::Rename {
                from: join_path(root, entry),
                to: join_path(backup.as_str(), entry),
                missing_ok: false,
            };
            proof {
                assert(op@ == f(names[i as int]));
            }
            let ghost old_plan = plan@;
            plan.push(op);
            proof {
                old_plan.lemma_push_map_commute(|o: FsOp| o@, op);
                names.take(i as int).filter(p).lemma_push_map_commute(f, names[i as int]);
            }
        }
        i += 1;
    }
    proof {
        names.lemma_take_len();
        assert(names.take(n as int) == names);
    }
    plan
}

/// The certificate-request writes of one run: one rendered request file per
/// mapping entry, in the certificate-request root itself.
pub open spec fn acme_write_op(root: Seq<char>) -> spec_fn((Seq<char>, Seq<char>)) -> FsOpModel {
    |p: (Seq<char>, Seq<char>)|
        FsOpModel::WriteFile {
            path: spec_join(root, spec_acme_file(p.0)),
            content: spec_acme_request(p.0),
        }
}

/// The planned certificate-request writes of one run.
pub open spec fn spec_acme_writes(c: ConfigModel) -> Seq<FsOpModel> {
    c.mapping.map_values(acme_write_op(c.acme_redirect_configs))
}

/// Plans the certificate-request writes of one run over `config`.
pub fn acme_config_writes(config: &Config) -> (plan: Vec<FsOp>)
    ensures
        plan_model(plan@) == spec_acme_writes(config@),
{
    let root = config.acme_redirect_configs.as_str();
    let ghost mapping: Seq<(Seq<char>, Seq<char>)> = config@.mapping;
    let ghost f = acme_write_op(config@.acme_redirect_configs);
    let mut plan: Vec<FsOp> = Vec::new();
    proof {
        assert(plan_model(plan@) =~= mapping.take(0).map_values(f));
    }
    let n = config.mapping.len();
    let mut i: usize = 0;
    while i < n
        invariant
            n == config.mapping@.len(),
            i <= n,
            mapping == config@.mapping,
            f == acme_write_op(config@.acme_redirect_configs),
            root@ == config@.acme_redirect_configs,
            plan_model(plan@) == mapping.take(i as int).map_values(f),
        decreases n - i,
    {
        let mut file_name = concat_str("web-distributor.", config.mapping[i].0.as_str());
        file_name.append(".conf");
        let path = join_path(root, file_name.as_str());
        let content = acme_redirect_config_build(config.mapping[i].0.as_str());
        let op = FsOp::WriteFile { path, content };
        proof {
            assert(op@ == f(mapping[i as int]));
        }
        let ghost old_plan = plan@;
        plan.push(op);
        proof {
            old_plan.lemma_push_map_commute(|o: FsOp| o@, op);
            mapping.lemma_map_take_succ(f, i as int);
        }
        i += 1;
    }
    proof {
        mapping.lemma_take_len();
        assert(mapping.take(n as int) == mapping);
    }
    plan
}

/// Appending one name to the filtered input keeps the filtered output,
/// plus the name itself exactly when it passes the filter.
proof fn lemma_filter_push<A>(s: Seq<A>, x: A, p: spec_fn(A) -> bool)
    ensures
        s.push(x).filter(p) == if p(x) {
            s.filter(p).push(x)
        } else {
            s.filter(p)
        },
{
    reveal(Seq::filter);
    assert(s.push(x).drop_last() =~= s);
    assert(s.push(x).last() == x);
}

/// Law: the selective rotation moves exactly the entries that carry this
/// system's `web-distributor` prefix and are not already under the
/// `web-distributor-old` backup naming convention. An entry of the root
/// that does not match the prefix, or that is already backup-named, is
/// never among the moved names.
pub proof fn lemma_selective_move_exact(names: Seq<Seq<char>>, n: Seq<char>)
    ensures
        selected_names(names).contains(n) <==> (names.contains(n) && spec_selected(n)),
    decreases names.len(),
{
    reveal(Seq::filter);
    if names.len() == 0 {
        assert(!selected_names(names).contains(n));
        assert(!names.contains(n));
    } else {
        let head = names.drop_last();
        let last = names.last();
        lemma_selective_move_exact(head, n);
        assert(head.push(last) =~= names);
        lemma_filter_push(head, last, |m: Seq<char>| spec_selected(m));
        if names.contains(n) && spec_selected(n) {
            let i = choose|i: int| 0 <= i < names.len() && names[i] == n;
            if i < names.len() - 1 {
                assert(head[i] == n);
                assert(head.contains(n));
                let j = choose|j: int|
                    0 <= j < selected_names(head).len() && selected_names(head)[j] == n;
                assert(selected_names(names)[j] == n);
            } else {
                assert(last == n);
                assert(selected_names(names).last() == n);
            }
        }
        if selected_names(names).contains(n) {
            let i = choose|i: int|
                0 <= i < selected_names(names).len() && selected_names(names)[i] == n;
            if spec_selected(last) && i == selected_names(names).len() - 1 {
                assert(n == last);
                assert(names[names.len() - 1] == n);
            } else {
                assert(selected_names(head)[i] == n);
                assert(selected_names(head).contains(n));
                let j = choose|j: int| 0 <= j < head.len() && head[j] == n;
                assert(names[j] == n);
            }
        }
    }
}

/// Law: a name that begins with the backup convention `web-distributor-old`
/// is never selected, whatever follows it; so neither the backup
/// subdirectory itself nor any timestamped archive is ever re-archived.
pub proof fn lemma_backup_names_not_selected(suffix: Seq<char>)
    ensures
        !spec_selected("web-distributor-old"@ + suffix),
{
    reveal_strlit("web-distributor-old");
    let full = "web-distributor-old"@ + suffix;
    assert(full.subrange(0, "web-distributor-old"@.len() as int) =~= "web-distributor-old"@);
}

/// Law: the certificate-request file names this system writes are
/// themselves selected, so the following run archives them rather than
/// leaving them behind.
pub proof fn lemma_written_files_selected(namespace: Seq<char>)
    ensures
        spec_selected(spec_acme_file(namespace)),
{
    reveal_strlit("web-distributor");
    reveal_strlit("web-distributor-old");
    reveal_strlit("web-distributor.");
    let full = spec_acme_file(namespace);
    assert(("web-distributor."@)[15] == '.');
    assert(("web-distributor-old"@)[15] == '-');
    assert(full.subrange(0, 15) =~= "web-distributor"@);
    assert(full[15] == '.');
    if "web-distributor-old"@.is_prefix_of(full) {
        assert(full.subrange(0, 19)[15] == full[15]);
    }
}

/// Law: the planned files correspond one to one with the mapping. The
/// proxy-side plan holds, after its three rotation steps, exactly one write
/// per mapping entry, at the file name derived from the entry's namespace
/// and with the rendered proxy text; the certificate-side plan holds
/// exactly one write per entry, at the derived request file name and with
/// the rendered request text. An empty mapping plans the rotations and no
/// writes.
pub proof fn lemma_mapping_file_correspondence(c: ConfigModel, ts: Seq<char>)
    ensures
        spec_webserver_plan(c, ts).len() == 3 + c.mapping.len(),
        forall|i: int|
            0 <= i < c.mapping.len() ==> spec_webserver_plan(c, ts)[3 + i]
                == (FsOpModel::WriteFile {
                path: spec_join(spec_nginx_live(c.home), spec_nginx_file(#[trigger] c.mapping[i].0)),
                content: spec_nginx_proxy(c.mapping[i].0, c.mapping[i].1),
            }),
        spec_acme_writes(c).len() == c.mapping.len(),
        forall|i: int|
            0 <= i < c.mapping.len() ==> spec_acme_writes(c)[i] == (FsOpModel::WriteFile {
                path: spec_join(c.acme_redirect_configs, spec_acme_file(#[trigger] c.mapping[i].0)),
                content: spec_acme_request(c.mapping[i].0),
            }),
{
}

} // verus!
